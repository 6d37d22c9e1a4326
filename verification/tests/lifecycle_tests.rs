use periodic_executor::lifecycle::transition;
use periodic_executor::lifecycle::ContextEvent;
use periodic_executor::lifecycle::ContextState;

#[test]
fn full_shutdown_path() {
    let s0 = ContextState::Created;
    let s1 = transition(s0, ContextEvent::Ready);
    assert_eq!(s1, ContextState::Running);
    let s2 = transition(s1, ContextEvent::TerminationSignal);
    assert_eq!(s2, ContextState::TerminationRequested);
    let s3 = transition(s2, ContextEvent::DispatchComplete);
    assert_eq!(s3, ContextState::Stopped);
}

#[test]
fn signal_waits_for_dispatch_to_complete() {
    let running = ContextState::Running;
    let requested = transition(running, ContextEvent::TerminationSignal);
    assert_ne!(requested, ContextState::Stopped);
    assert_eq!(requested, ContextState::TerminationRequested);
}

#[test]
fn dispatch_keeps_running_without_signal() {
    assert_eq!(
        transition(ContextState::Running, ContextEvent::DispatchComplete),
        ContextState::Running
    );
}

#[test]
fn second_signal_is_a_no_op() {
    assert_eq!(
        transition(ContextState::TerminationRequested, ContextEvent::TerminationSignal),
        ContextState::TerminationRequested
    );
    assert_eq!(
        transition(ContextState::Stopped, ContextEvent::TerminationSignal),
        ContextState::Stopped
    );
}

#[test]
fn stopped_is_terminal() {
    assert_eq!(
        transition(ContextState::Stopped, ContextEvent::Ready),
        ContextState::Stopped
    );
    assert_eq!(
        transition(ContextState::Stopped, ContextEvent::DispatchComplete),
        ContextState::Stopped
    );
}

#[test]
fn signal_before_ready_requests_termination() {
    assert_eq!(
        transition(ContextState::Created, ContextEvent::TerminationSignal),
        ContextState::TerminationRequested
    );
}
