use vstd::prelude::*;

use crate::coordinator::{
    initial, model_wf, step, Action, CoordinatorModel, Event, Phase, CLEAN_EXIT_CODE,
    TIMEOUT_EXIT_CODE,
};
use crate::signal::SignalKind;

verus! {

/// The state reached from `s` after the events `evs`, in order.
pub open spec fn run(s: CoordinatorModel, evs: Seq<Event>) -> CoordinatorModel
    decreases evs.len(),
{
    if evs.len() == 0 {
        s
    } else {
        step(run(s, evs.drop_last()), evs.last()).0
    }
}

/// The actions answered to the events `evs`, starting from `s`.
pub open spec fn actions(s: CoordinatorModel, evs: Seq<Event>) -> Seq<Action>
    decreases evs.len(),
{
    if evs.len() == 0 {
        Seq::empty()
    } else {
        actions(s, evs.drop_last()).push(step(run(s, evs.drop_last()), evs.last()).1)
    }
}

/// How many times shutdown was triggered in a sequence of actions.
pub open spec fn trigger_count(acts: Seq<Action>) -> nat
    decreases acts.len(),
{
    if acts.len() == 0 {
        0
    } else {
        trigger_count(acts.drop_last()) + if acts.last() is ArmTimer { 1nat } else { 0nat }
    }
}

/// How many times the process was told to exit in a sequence of actions.
pub open spec fn exit_count(acts: Seq<Action>) -> nat
    decreases acts.len(),
{
    if acts.len() == 0 {
        0
    } else {
        exit_count(acts.drop_last()) + if acts.last() is Exit { 1nat } else { 0nat }
    }
}

/// The positions of the hooks handed out to run, in the order they were handed out.
pub open spec fn hooks_run(acts: Seq<Action>) -> Seq<int>
    decreases acts.len(),
{
    if acts.len() == 0 {
        Seq::empty()
    } else {
        match acts.last() {
            Action::RunHook(i) => hooks_run(acts.drop_last()).push(i as int),
            _ => hooks_run(acts.drop_last()),
        }
    }
}

/// Whether an event asks for shutdown under the given signal configuration.
pub open spec fn is_trigger(signals: Seq<SignalKind>, e: Event) -> bool {
    match e {
        Event::Signal(k) => signals.contains(k),
        Event::ShutdownRequested => true,
        _ => false,
    }
}

/// The first `n` positions, in increasing order.
pub open spec fn in_order(n: nat) -> Seq<int> {
    Seq::new(n, |i: int| i)
}

/// The events of an undisturbed drain of `n` hooks that all succeed.
pub open spec fn drain_events(n: nat) -> Seq<Event> {
    seq![Event::TimerArmed] + Seq::new(n, |i: int| Event::HookFinished(true))
}

/// Whatever sequence of events arrives, signals of any mix of kinds
/// included, a coordinator that starts in `Idle`: is triggered at most once,
/// and exactly once when some event in the sequence asks for shutdown; hands
/// out its hooks in registration order, each at most once; and exits at most
/// once, only after the trigger.
pub proof fn lemma_trigger_once_hooks_in_order(
    hooks: Seq<Seq<char>>,
    signals: Seq<SignalKind>,
    timeout_ms: nat,
    evs: Seq<Event>,
)
    requires
        timeout_ms <= u64::MAX,
        hooks.len() <= usize::MAX,
    ensures
        ({
            let s = initial(hooks, signals, timeout_ms);
            let r = run(s, evs);
            let acts = actions(s, evs);
            &&& model_wf(r)
            &&& r.hooks == hooks
            &&& trigger_count(acts) <= 1
            &&& (trigger_count(acts) == 1 <==> exists|i: int|
                0 <= i < evs.len() && #[trigger] is_trigger(signals, evs[i]))
            &&& hooks_run(acts) == in_order(r.next_hook)
            &&& r.next_hook <= hooks.len()
            &&& exit_count(acts) <= trigger_count(acts)
        }),
{
    lemma_run_from_initial(hooks, signals, timeout_ms, evs);
}

proof fn lemma_run_from_initial(
    hooks: Seq<Seq<char>>,
    signals: Seq<SignalKind>,
    timeout_ms: nat,
    evs: Seq<Event>,
)
    requires
        timeout_ms <= u64::MAX,
        hooks.len() <= usize::MAX,
    ensures
        ({
            let s = initial(hooks, signals, timeout_ms);
            let r = run(s, evs);
            let acts = actions(s, evs);
            &&& model_wf(r)
            &&& r.hooks == hooks
            &&& r.signals == signals
            &&& r.timeout_ms == timeout_ms
            &&& trigger_count(acts) == (if r.phase == Phase::Idle { 0nat } else { 1nat })
            &&& (r.phase != Phase::Idle <==> exists|i: int|
                0 <= i < evs.len() && #[trigger] is_trigger(signals, evs[i]))
            &&& hooks_run(acts) == in_order(r.next_hook)
            &&& exit_count(acts) == (if r.phase == Phase::Exited { 1nat } else { 0nat })
        }),
    decreases evs.len(),
{
    let s = initial(hooks, signals, timeout_ms);
    if evs.len() == 0 {
        assert(hooks_run(actions(s, evs)) =~= in_order(0));
    } else {
        let pre = evs.drop_last();
        let e = evs.last();
        lemma_run_from_initial(hooks, signals, timeout_ms, pre);
        let p = run(s, pre);
        let acts = actions(s, evs);
        assert(acts.drop_last() =~= actions(s, pre));
        assert(acts.last() == step(p, e).1);
        if p.phase == Phase::Idle {
            assert(forall|i: int| 0 <= i < pre.len() ==> pre[i] == evs[i]);
        } else {
            let w = choose|i: int| 0 <= i < pre.len() && #[trigger] is_trigger(signals, pre[i]);
            assert(evs[w] == pre[w]);
        }
        if run(s, evs).phase != Phase::Idle && p.phase == Phase::Idle {
            assert(is_trigger(signals, evs[evs.len() - 1]));
        }
        if run(s, evs).phase == Phase::Idle {
            assert forall|i: int| 0 <= i < evs.len() implies !#[trigger] is_trigger(signals, evs[i]) by {
                if i < pre.len() {
                    assert(evs[i] == pre[i]);
                }
            }
        }
        match step(p, e).1 {
            Action::RunHook(i) => {
                assert(hooks_run(acts) =~= in_order(run(s, evs).next_hook));
            },
            _ => {},
        }
    }
}

/// A triggered coordinator with nothing in flight, given the timer and each
/// of its hooks' completion in turn, hands out every hook exactly once and
/// in registration order, then exits cleanly.
pub proof fn lemma_drain_runs_every_hook(s: CoordinatorModel)
    requires
        model_wf(s),
        s.phase == Phase::Triggered,
        s.in_flight == 0,
    ensures
        ({
            let evs = drain_events(s.hooks.len());
            let acts = actions(s, evs);
            &&& hooks_run(acts) == in_order(s.hooks.len())
            &&& acts.last() == Action::Exit(CLEAN_EXIT_CODE)
            &&& run(s, evs).phase == Phase::Exited
            &&& run(s, evs).exit_code == Some(CLEAN_EXIT_CODE)
        }),
{
    let n = s.hooks.len();
    let evs = drain_events(n);
    let acts = actions(s, evs);
    if n == 0 {
        assert(evs.drop_last() =~= Seq::<Event>::empty());
        assert(evs.last() == Event::TimerArmed);
        assert(evs.len() == 1);
        assert(acts == actions(s, evs.drop_last()).push(step(run(s, evs.drop_last()), evs.last()).1));
        assert(acts.drop_last() =~= Seq::<Action>::empty());
        assert(acts.last() == Action::Exit(CLEAN_EXIT_CODE));
        assert(hooks_run(acts.drop_last()) =~= Seq::<int>::empty());
        assert(hooks_run(acts) =~= in_order(0));
    } else {
        lemma_drain_prefix(s, (n - 1) as nat);
        let pre = drain_events((n - 1) as nat);
        assert(evs.drop_last() =~= pre);
        assert(evs.last() == Event::HookFinished(true));
        assert(acts.drop_last() =~= actions(s, pre));
        assert(acts.last() == Action::Exit(CLEAN_EXIT_CODE));
        assert(hooks_run(acts) =~= hooks_run(actions(s, pre)));
    }
}

proof fn lemma_drain_prefix(s: CoordinatorModel, k: nat)
    requires
        model_wf(s),
        s.phase == Phase::Triggered,
        s.in_flight == 0,
        k < s.hooks.len(),
    ensures
        ({
            let evs = drain_events(k);
            let r = run(s, evs);
            let acts = actions(s, evs);
            &&& r.phase == Phase::Draining
            &&& r.running
            &&& r.next_hook == k + 1
            &&& r.in_flight == 0
            &&& r.hooks == s.hooks
            &&& hooks_run(acts) == in_order(k + 1)
        }),
    decreases k,
{
    let evs = drain_events(k);
    let acts = actions(s, evs);
    if k == 0 {
        assert(evs.drop_last() =~= Seq::<Event>::empty());
        assert(evs.last() == Event::TimerArmed);
        assert(evs.len() == 1);
        assert(acts == actions(s, evs.drop_last()).push(step(run(s, evs.drop_last()), evs.last()).1));
        assert(acts.drop_last() =~= Seq::<Action>::empty());
        assert(acts.last() == Action::RunHook(0));
        assert(hooks_run(acts.drop_last()) =~= Seq::<int>::empty());
        assert(hooks_run(acts) =~= in_order(1));
    } else {
        lemma_drain_prefix(s, (k - 1) as nat);
        let pre = drain_events((k - 1) as nat);
        assert(evs.drop_last() =~= pre);
        assert(evs.last() == Event::HookFinished(true));
        assert(acts.drop_last() =~= actions(s, pre));
        assert(acts.last() == Action::RunHook(k as usize));
        assert(hooks_run(acts) =~= in_order(k + 1));
    }
}

/// A clean exit is only ever decided when no invocation is in flight, and
/// the count of invocations in flight only drops when one reports its
/// outcome: an invocation that began before the trigger is reported before
/// a clean exit.
pub proof fn lemma_clean_exit_waits_for_invocations(s: CoordinatorModel, e: Event)
    requires
        model_wf(s),
    ensures
        step(s, e).1 == Action::Exit(CLEAN_EXIT_CODE) ==> step(s, e).0.in_flight == 0,
        step(s, e).0.in_flight < s.in_flight ==> e == Event::InvocationFinished
            && step(s, e).0.in_flight == s.in_flight - 1,
        s.phase != Phase::Exited && step(s, e).0.phase == Phase::Exited
            && e != Event::TimeoutElapsed ==> step(s, e).0.in_flight == 0,
{
}

/// Once the drain has begun, running out of time exits the process with the
/// timeout exit code, however many hooks are still to run.
pub proof fn lemma_timeout_forces_exit(s: CoordinatorModel)
    requires
        model_wf(s),
        s.phase == Phase::Triggered || s.phase == Phase::Draining,
    ensures
        step(s, Event::TimeoutElapsed).1 == Action::Exit(TIMEOUT_EXIT_CODE),
        step(s, Event::TimeoutElapsed).0.phase == Phase::Exited,
        step(s, Event::TimeoutElapsed).0.exit_code == Some(TIMEOUT_EXIT_CODE),
{
}

/// Nothing leaves `Exited`: every later event is ignored or refused.
pub proof fn lemma_exited_is_final(s: CoordinatorModel, e: Event)
    requires
        model_wf(s),
        s.phase == Phase::Exited,
    ensures
        step(s, e).0 == s,
        step(s, e).1 == Action::Ignore || step(s, e).1 == Action::Refuse,
{
}

} // verus!
