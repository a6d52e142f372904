use graceful_shutdown::{
    Action, Coordinator, Event, HookRegistry, Phase, ShutdownConfig, ShutdownState, SignalKind,
    CLEAN_EXIT_CODE, TIMEOUT_EXIT_CODE,
};

fn coordinator(hooks: &[&str], signals: Vec<SignalKind>, timeout_ms: u64) -> Coordinator {
    let mut registry = HookRegistry::new();
    for h in hooks {
        registry.register(h.to_string());
    }
    Coordinator::new(ShutdownConfig { timeout_ms, signals }, registry)
}

#[test]
fn sigterm_with_invocation_in_flight_drains_then_exits_clean() {
    let mut c = coordinator(&["closeDB", "flushMetrics"], vec![SignalKind::Terminate], 5000);
    assert_eq!(c.handle(Event::InvocationStarted), Action::Proceed);
    assert_eq!(c.handle(Event::Signal(SignalKind::Terminate)), Action::ArmTimer(5000));
    assert_eq!(c.shutdown_state(), ShutdownState::ShuttingDown);
    assert_eq!(c.handle(Event::Signal(SignalKind::Terminate)), Action::Ignore);
    assert_eq!(c.handle(Event::TimerArmed), Action::RunHook(0));
    assert_eq!(c.hook_name(0), "closeDB");
    assert_eq!(c.handle(Event::Signal(SignalKind::Terminate)), Action::Ignore);
    assert_eq!(c.handle(Event::InvocationFinished), Action::Proceed);
    assert_eq!(c.handle(Event::HookFinished(true)), Action::RunHook(1));
    assert_eq!(c.hook_name(1), "flushMetrics");
    assert_eq!(c.handle(Event::HookFinished(true)), Action::Exit(CLEAN_EXIT_CODE));
    assert_eq!(c.phase(), Phase::Exited);
    assert_eq!(c.exit_code(), Some(0));
    assert_eq!(c.handle(Event::Signal(SignalKind::Terminate)), Action::Ignore);
    assert_eq!(c.handle(Event::HookFinished(true)), Action::Ignore);
}

#[test]
fn exit_waits_for_the_invocation_in_flight() {
    let mut c = coordinator(&["closeDB", "flushMetrics"], vec![SignalKind::Terminate], 5000);
    assert_eq!(c.handle(Event::InvocationStarted), Action::Proceed);
    assert_eq!(c.handle(Event::Signal(SignalKind::Terminate)), Action::ArmTimer(5000));
    assert_eq!(c.handle(Event::TimerArmed), Action::RunHook(0));
    assert_eq!(c.handle(Event::HookFinished(true)), Action::RunHook(1));
    assert_eq!(c.handle(Event::HookFinished(true)), Action::AwaitInvocations);
    assert_eq!(c.phase(), Phase::Draining);
    assert_eq!(c.in_flight(), 1);
    assert_eq!(c.handle(Event::InvocationStarted), Action::Refuse);
    assert_eq!(c.handle(Event::InvocationFinished), Action::Exit(CLEAN_EXIT_CODE));
    assert_eq!(c.exit_code(), Some(0));
}

#[test]
fn many_signals_of_mixed_kinds_trigger_once() {
    let signals = vec![SignalKind::Terminate, SignalKind::Interrupt];
    let mut c = coordinator(&["a"], signals, 100);
    let arrivals = [
        SignalKind::Interrupt,
        SignalKind::Terminate,
        SignalKind::Interrupt,
        SignalKind::Terminate,
        SignalKind::Terminate,
    ];
    let mut arms = 0;
    for k in arrivals {
        if let Action::ArmTimer(_) = c.handle(Event::Signal(k)) {
            arms += 1;
        }
    }
    assert_eq!(c.handle(Event::ShutdownRequested), Action::Ignore);
    assert_eq!(arms, 1);
    assert_eq!(c.handle(Event::TimerArmed), Action::RunHook(0));
    assert_eq!(c.handle(Event::TimerArmed), Action::Ignore);
    assert_eq!(c.handle(Event::Signal(SignalKind::Interrupt)), Action::Ignore);
    assert_eq!(c.handle(Event::HookFinished(true)), Action::Exit(CLEAN_EXIT_CODE));
}

#[test]
fn signal_outside_the_configured_set_is_ignored() {
    let mut c = coordinator(&["a"], vec![SignalKind::Terminate], 100);
    assert_eq!(c.handle(Event::Signal(SignalKind::Interrupt)), Action::Ignore);
    assert_eq!(c.handle(Event::Signal(SignalKind::Hangup)), Action::Ignore);
    assert_eq!(c.phase(), Phase::Idle);
    assert_eq!(c.shutdown_state(), ShutdownState::Running);
    assert_eq!(c.handle(Event::Signal(SignalKind::Terminate)), Action::ArmTimer(100));
    assert_eq!(c.phase(), Phase::Triggered);
}

#[test]
fn programmatic_request_triggers_like_a_signal() {
    let mut c = coordinator(&[], vec![SignalKind::Terminate], 30);
    assert_eq!(c.handle(Event::ShutdownRequested), Action::ArmTimer(30));
    assert_eq!(c.handle(Event::Signal(SignalKind::Terminate)), Action::Ignore);
    assert_eq!(c.handle(Event::TimerArmed), Action::Exit(CLEAN_EXIT_CODE));
}

#[test]
fn hooks_run_in_registration_order() {
    let mut c = coordinator(&["A", "B", "C"], vec![SignalKind::Terminate], 1000);
    c.handle(Event::Signal(SignalKind::Terminate));
    let mut order = Vec::new();
    let mut action = c.handle(Event::TimerArmed);
    while let Action::RunHook(i) = action {
        order.push(c.hook_name(i));
        action = c.handle(Event::HookFinished(true));
    }
    assert_eq!(order, vec!["A".to_string(), "B".to_string(), "C".to_string()]);
    assert_eq!(action, Action::Exit(CLEAN_EXIT_CODE));
}

#[test]
fn failing_hook_does_not_stop_the_drain() {
    let mut c = coordinator(&["A", "B"], vec![SignalKind::Terminate], 1000);
    c.handle(Event::Signal(SignalKind::Terminate));
    assert_eq!(c.handle(Event::TimerArmed), Action::RunHook(0));
    assert_eq!(c.handle(Event::HookFinished(false)), Action::RunHook(1));
    assert_eq!(c.handle(Event::HookFinished(false)), Action::Exit(CLEAN_EXIT_CODE));
}

#[test]
fn timeout_exits_before_all_hooks_complete() {
    let mut c = coordinator(&["A", "B", "C"], vec![SignalKind::Terminate], 5000);
    c.handle(Event::Signal(SignalKind::Terminate));
    assert_eq!(c.handle(Event::TimerArmed), Action::RunHook(0));
    assert_eq!(c.handle(Event::TimeoutElapsed), Action::Exit(TIMEOUT_EXIT_CODE));
    assert_eq!(c.exit_code(), Some(124));
    assert_eq!(c.phase(), Phase::Exited);
    assert_eq!(c.handle(Event::HookFinished(true)), Action::Ignore);
    assert_eq!(c.handle(Event::TimeoutElapsed), Action::Ignore);
}

#[test]
fn timeout_before_trigger_is_ignored() {
    let mut c = coordinator(&["A"], vec![SignalKind::Terminate], 5000);
    assert_eq!(c.handle(Event::TimeoutElapsed), Action::Ignore);
    assert_eq!(c.phase(), Phase::Idle);
}

#[test]
fn invocations_start_until_hooks_complete() {
    let mut c = coordinator(&["A"], vec![SignalKind::Terminate], 5000);
    assert_eq!(c.handle(Event::InvocationFinished), Action::Ignore);
    c.handle(Event::Signal(SignalKind::Terminate));
    assert_eq!(c.handle(Event::InvocationStarted), Action::Proceed);
    assert_eq!(c.handle(Event::TimerArmed), Action::RunHook(0));
    assert_eq!(c.handle(Event::InvocationStarted), Action::Proceed);
    assert_eq!(c.in_flight(), 2);
    assert_eq!(c.handle(Event::HookFinished(true)), Action::AwaitInvocations);
    assert_eq!(c.handle(Event::InvocationStarted), Action::Refuse);
    assert_eq!(c.handle(Event::InvocationFinished), Action::Proceed);
    assert_eq!(c.handle(Event::InvocationFinished), Action::Exit(CLEAN_EXIT_CODE));
    assert_eq!(c.handle(Event::InvocationStarted), Action::Refuse);
}

#[test]
fn registry_keeps_insertion_order() {
    let mut r = HookRegistry::new();
    assert_eq!(r.len(), 0);
    r.register("closeDB".to_string());
    r.register("flushMetrics".to_string());
    assert_eq!(r.len(), 2);
    assert_eq!(r.name(0), "closeDB");
    assert_eq!(r.name(1), "flushMetrics");
}

#[test]
fn signal_numbers_round_trip() {
    assert_eq!(SignalKind::Terminate.number(), 15);
    assert_eq!(SignalKind::Interrupt.number(), 2);
    assert_eq!(SignalKind::from_number(15), Some(SignalKind::Terminate));
    assert_eq!(SignalKind::from_number(2), Some(SignalKind::Interrupt));
    assert_eq!(SignalKind::from_number(1), Some(SignalKind::Hangup));
    assert_eq!(SignalKind::from_number(3), Some(SignalKind::Quit));
    assert_eq!(SignalKind::from_number(9), None);
}
