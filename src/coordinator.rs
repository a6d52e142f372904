use vstd::prelude::*;

use crate::hooks::HookRegistry;
use crate::signal::SignalKind;

verus! {

/// Exit code of a process whose drain ran to its end.
pub const CLEAN_EXIT_CODE: i32 = 0;

/// Exit code of a process whose drain was cut short by the shutdown timeout.
pub const TIMEOUT_EXIT_CODE: i32 = 124;

/// The largest number of invocations that may be in flight at once.
pub const MAX_IN_FLIGHT: u64 = 0xffff_ffff_ffff_ffff;

/// The phases of the shutdown sequence. `Idle` is normal serving; the
/// sequence only ever moves forward, and nothing leaves `Exited`.
#[derive(Clone, Copy, Debug, PartialEq, Eq, Structural)]
pub enum Phase {
    Idle,
    Triggered,
    Draining,
    Exited,
}

/// The process-wide shutdown state: `Running` until the first trigger,
/// `ShuttingDown` from then on.
#[derive(Clone, Copy, Debug, PartialEq, Eq, Structural)]
pub enum ShutdownState {
    Running,
    ShuttingDown,
}

/// The shutdown state of a coordinator in the given phase.
pub open spec fn state_of(p: Phase) -> ShutdownState {
    if p == Phase::Idle {
        ShutdownState::Running
    } else {
        ShutdownState::ShuttingDown
    }
}

/// What the host reports to the coordinator.
#[derive(Clone, Copy, Debug, PartialEq, Eq, Structural)]
pub enum Event {
    /// An operating-system signal was received.
    Signal(SignalKind),
    /// Shutdown was asked for by the program itself.
    ShutdownRequested,
    /// The timer asked for by `Action::ArmTimer` is running.
    TimerArmed,
    /// The hook last handed out by `Action::RunHook` has returned; `false`
    /// when it failed (a failure is logged and the drain goes on).
    HookFinished(bool),
    /// The shutdown timeout has run out.
    TimeoutElapsed,
    /// The dispatch loop received an invocation and wants to start it.
    InvocationStarted,
    /// The dispatch loop reported the outcome of an invocation.
    InvocationFinished,
}

/// What the coordinator asks the host to do next.
#[derive(Clone, Copy, Debug, PartialEq, Eq, Structural)]
pub enum Action {
    /// Nothing to do: the event changes nothing.
    Ignore,
    /// Go on as before (an invocation may start, or was accounted for).
    Proceed,
    /// The invocation must not start: hooks have already completed.
    Refuse,
    /// Shutdown was triggered: start a timer of this many milliseconds, then
    /// report `Event::TimerArmed`.
    ArmTimer(u64),
    /// Run the hook at this position of the registry, then report
    /// `Event::HookFinished`.
    RunHook(usize),
    /// Every hook has run; wait for the invocations in flight to finish.
    AwaitInvocations,
    /// Terminate the process with this exit code.
    Exit(i32),
}

/// The recognised configuration options of a coordinator.
pub struct ShutdownConfig {
    /// The longest the drain may take, in milliseconds.
    pub timeout_ms: u64,
    /// The signal kinds that trigger shutdown.
    pub signals: Vec<SignalKind>,
}

/// The abstract state of a coordinator.
pub struct CoordinatorModel {
    pub phase: Phase,
    pub hooks: Seq<Seq<char>>,
    /// How many hooks have been handed out to run.
    pub next_hook: nat,
    /// Whether the last hook handed out has not yet returned.
    pub running: bool,
    pub in_flight: nat,
    pub signals: Seq<SignalKind>,
    pub timeout_ms: nat,
    pub exit_code: Option<i32>,
}

/// The coordinator's state is consistent.
pub open spec fn model_wf(s: CoordinatorModel) -> bool {
    &&& s.next_hook <= s.hooks.len()
    &&& s.hooks.len() <= usize::MAX
    &&& s.in_flight <= MAX_IN_FLIGHT
    &&& s.timeout_ms <= u64::MAX
    &&& (s.running ==> (s.phase == Phase::Draining || s.phase == Phase::Exited) && s.next_hook >= 1)
    &&& ((s.phase == Phase::Idle || s.phase == Phase::Triggered) ==> s.next_hook == 0
        && !s.running)
    &&& (s.exit_code is Some <==> s.phase == Phase::Exited)
}

/// The state of a coordinator built from a configuration and a registry.
pub open spec fn initial(hooks: Seq<Seq<char>>, signals: Seq<SignalKind>, timeout_ms: nat) -> CoordinatorModel {
    CoordinatorModel {
        phase: Phase::Idle,
        hooks,
        next_hook: 0,
        running: false,
        in_flight: 0,
        signals,
        timeout_ms,
        exit_code: None,
    }
}

/// Every hook has been handed out and has returned.
pub open spec fn hooks_done(s: CoordinatorModel) -> bool {
    s.next_hook == s.hooks.len() && !s.running
}

/// The first transition: from `Idle` only, into `Triggered`.
pub open spec fn trigger(s: CoordinatorModel) -> (CoordinatorModel, Action) {
    if s.phase == Phase::Idle {
        (CoordinatorModel { phase: Phase::Triggered, ..s }, Action::ArmTimer(s.timeout_ms as u64))
    } else {
        (s, Action::Ignore)
    }
}

/// The next move of a drain that is not waiting on a hook: hand out the next
/// hook, or exit when all are done and nothing is in flight, or wait.
pub open spec fn advance(s: CoordinatorModel) -> (CoordinatorModel, Action) {
    if s.next_hook < s.hooks.len() {
        (
            CoordinatorModel { next_hook: s.next_hook + 1, running: true, ..s },
            Action::RunHook(s.next_hook as usize),
        )
    } else if s.in_flight == 0 {
        (
            CoordinatorModel { phase: Phase::Exited, exit_code: Some(CLEAN_EXIT_CODE), ..s },
            Action::Exit(CLEAN_EXIT_CODE),
        )
    } else {
        (s, Action::AwaitInvocations)
    }
}

/// How the coordinator answers one event.
pub open spec fn step(s: CoordinatorModel, e: Event) -> (CoordinatorModel, Action) {
    match e {
        Event::Signal(k) => if s.signals.contains(k) {
            trigger(s)
        } else {
            (s, Action::Ignore)
        },
        Event::ShutdownRequested => trigger(s),
        Event::TimerArmed => if s.phase == Phase::Triggered {
            advance(CoordinatorModel { phase: Phase::Draining, ..s })
        } else {
            (s, Action::Ignore)
        },
        Event::HookFinished(_) => if s.phase == Phase::Draining && s.running {
            advance(CoordinatorModel { running: false, ..s })
        } else {
            (s, Action::Ignore)
        },
        Event::TimeoutElapsed => if s.phase == Phase::Triggered || s.phase == Phase::Draining {
            (
                CoordinatorModel { phase: Phase::Exited, exit_code: Some(TIMEOUT_EXIT_CODE), ..s },
                Action::Exit(TIMEOUT_EXIT_CODE),
            )
        } else {
            (s, Action::Ignore)
        },
        Event::InvocationStarted => if s.phase == Phase::Exited || (s.phase == Phase::Draining
            && hooks_done(s)) || s.in_flight >= MAX_IN_FLIGHT {
            (s, Action::Refuse)
        } else {
            (CoordinatorModel { in_flight: s.in_flight + 1, ..s }, Action::Proceed)
        },
        Event::InvocationFinished => if s.phase == Phase::Exited || s.in_flight == 0 {
            (s, Action::Ignore)
        } else if s.phase == Phase::Draining && hooks_done(s) && s.in_flight == 1 {
            (
                CoordinatorModel {
                    phase: Phase::Exited,
                    in_flight: 0,
                    exit_code: Some(CLEAN_EXIT_CODE),
                    ..s
                },
                Action::Exit(CLEAN_EXIT_CODE),
            )
        } else {
            (CoordinatorModel { in_flight: (s.in_flight - 1) as nat, ..s }, Action::Proceed)
        },
    }
}

/// The shutdown coordinator: it decides, event by event, when shutdown is
/// triggered, which hook runs next, and when and how the process exits.
pub struct Coordinator {
    signals: Vec<SignalKind>,
    timeout_ms: u64,
    hooks: Vec<String>,
    phase: Phase,
    next_hook: usize,
    running: bool,
    in_flight: u64,
    exit_code: Option<i32>,
}

impl View for Coordinator {
    type V = CoordinatorModel;

    closed spec fn view(&self) -> CoordinatorModel {
        CoordinatorModel {
            phase: self.phase,
            hooks: self.hooks@.map_values(|h: String| h@),
            next_hook: self.next_hook as nat,
            running: self.running,
            in_flight: self.in_flight as nat,
            signals: self.signals@,
            timeout_ms: self.timeout_ms as nat,
            exit_code: self.exit_code,
        }
    }
}

impl Coordinator {
    /// The coordinator's invariant.
    pub open spec fn wf(&self) -> bool {
        model_wf(self@)
    }

    /// A coordinator in `Idle`, with the hooks of `registry` in their order.
    pub fn new(config: ShutdownConfig, registry: HookRegistry) -> (r: Coordinator)
        ensures
            r.wf(),
            r@ == initial(registry@, config.signals@, config.timeout_ms as nat),
    {
        let hooks = registry.into_names();
        // the length of a Vec is a usize: the invariant's bound on the hooks
        let hook_count: usize = hooks.len();
        assert(hook_count == hooks@.len());
        let r = Coordinator {
            signals: config.signals,
            timeout_ms: config.timeout_ms,
            hooks,
            phase: Phase::Idle,
            next_hook: 0,
            running: false,
            in_flight: 0,
            exit_code: None,
        };
        assert(r@.hooks.len() == r.hooks@.len());
        r
    }

    /// The phase the shutdown sequence is in.
    pub fn phase(&self) -> (r: Phase)
        ensures
            r == self@.phase,
    {
        self.phase
    }

    /// Whether shutdown has been triggered.
    pub fn shutdown_state(&self) -> (r: ShutdownState)
        ensures
            r == state_of(self@.phase),
    {
        if self.phase == Phase::Idle {
            ShutdownState::Running
        } else {
            ShutdownState::ShuttingDown
        }
    }

    /// The exit code decided on, once the phase is `Exited`.
    pub fn exit_code(&self) -> (r: Option<i32>)
        ensures
            r == self@.exit_code,
    {
        self.exit_code
    }

    /// The number of invocations that started and have not finished.
    pub fn in_flight(&self) -> (r: u64)
        ensures
            r == self@.in_flight,
    {
        self.in_flight
    }

    /// The name of the hook at position `i`.
    pub fn hook_name(&self, i: usize) -> (r: String)
        requires
            i < self@.hooks.len(),
        ensures
            r@ == self@.hooks[i as int],
    {
        self.hooks[i].clone()
    }

    fn qualifies(&self, k: SignalKind) -> (r: bool)
        ensures
            r == self@.signals.contains(k),
    {
        let mut i: usize = 0;
        while i < self.signals.len()
            invariant
                i <= self.signals@.len(),
                forall|j: int| 0 <= j < i ==> self.signals@[j] != k,
            decreases self.signals@.len() - i,
        {
            if self.signals[i] == k {
                return true;
            }
            i = i + 1;
        }
        false
    }

    fn do_trigger(&mut self) -> (a: Action)
        requires
            old(self).wf(),
        ensures
            final(self).wf(),
            (final(self)@, a) == trigger(old(self)@),
    {
        if self.phase == Phase::Idle {
            self.phase = Phase::Triggered;
            Action::ArmTimer(self.timeout_ms)
        } else {
            Action::Ignore
        }
    }

    fn do_advance(&mut self) -> (a: Action)
        requires
            old(self).wf(),
            old(self)@.phase == Phase::Draining,
            !old(self)@.running,
        ensures
            final(self).wf(),
            (final(self)@, a) == advance(old(self)@),
    {
        if self.next_hook < self.hooks.len() {
            let i = self.next_hook;
            self.next_hook = i + 1;
            self.running = true;
            Action::RunHook(i)
        } else if self.in_flight == 0 {
            self.phase = Phase::Exited;
            self.exit_code = Some(CLEAN_EXIT_CODE);
            Action::Exit(CLEAN_EXIT_CODE)
        } else {
            Action::AwaitInvocations
        }
    }

    /// Answers one event: moves to the next state and says what to do.
    pub fn handle(&mut self, e: Event) -> (a: Action)
        requires
            old(self).wf(),
        ensures
            final(self).wf(),
            (final(self)@, a) == step(old(self)@, e),
    {
        match e {
            Event::Signal(k) => {
                let q = self.qualifies(k);
                if q {
                    self.do_trigger()
                } else {
                    Action::Ignore
                }
            },
            Event::ShutdownRequested => self.do_trigger(),
            Event::TimerArmed => {
                if self.phase == Phase::Triggered {
                    self.phase = Phase::Draining;
                    self.do_advance()
                } else {
                    Action::Ignore
                }
            },
            Event::HookFinished(_) => {
                if self.phase == Phase::Draining && self.running {
                    self.running = false;
                    self.do_advance()
                } else {
                    Action::Ignore
                }
            },
            Event::TimeoutElapsed => {
                if self.phase == Phase::Triggered || self.phase == Phase::Draining {
                    self.phase = Phase::Exited;
                    self.exit_code = Some(TIMEOUT_EXIT_CODE);
                    Action::Exit(TIMEOUT_EXIT_CODE)
                } else {
                    Action::Ignore
                }
            },
            Event::InvocationStarted => {
                let done = self.next_hook == self.hooks.len() && !self.running;
                if self.phase == Phase::Exited || (self.phase == Phase::Draining && done)
                    || self.in_flight >= MAX_IN_FLIGHT {
                    Action::Refuse
                } else {
                    self.in_flight = self.in_flight + 1;
                    Action::Proceed
                }
            },
            Event::InvocationFinished => {
                let done = self.next_hook == self.hooks.len() && !self.running;
                if self.phase == Phase::Exited || self.in_flight == 0 {
                    Action::Ignore
                } else if self.phase == Phase::Draining && done && self.in_flight == 1 {
                    self.phase = Phase::Exited;
                    self.in_flight = 0;
                    self.exit_code = Some(CLEAN_EXIT_CODE);
                    Action::Exit(CLEAN_EXIT_CODE)
                } else {
                    self.in_flight = self.in_flight - 1;
                    Action::Proceed
                }
            },
        }
    }
}

} // verus!
