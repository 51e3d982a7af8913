use graceful_echo::server::{
    bind_address, ConnectionSet, ServerAction, ServerEvent, ServerMachine, ServerPhase,
};
use graceful_echo::shutdown::RecvOutcome;

#[test]
fn listener_binds_the_fixed_address() {
    assert_eq!(bind_address(), "127.0.0.1:3011");
}

#[test]
fn accepted_connections_get_fresh_ids() {
    let mut m = ServerMachine::new();
    assert_eq!(m.on_event(ServerEvent::Accepted), ServerAction::Spawn(0));
    assert_eq!(m.on_event(ServerEvent::Accepted), ServerAction::Spawn(1));
    assert_eq!(m.phase, ServerPhase::Accepting);
    assert_eq!(m.live.len(), 2);
}

#[test]
fn shutdown_with_zero_connections_stops_cleanly() {
    let mut m = ServerMachine::new();
    let e = ServerEvent::Shutdown(RecvOutcome::Received);
    assert!(m.event_allowed(&e));
    assert_eq!(m.on_event(e), ServerAction::ReportStopped);
    assert_eq!(m.phase, ServerPhase::Stopped);
    // terminal: nothing further is observed
    assert!(!m.event_allowed(&ServerEvent::Accepted));
    assert!(!m.event_allowed(&ServerEvent::Shutdown(RecvOutcome::Received)));
}

#[test]
fn lagged_receiver_stops_accepting_like_a_normal_event() {
    let mut m = ServerMachine::new();
    m.on_event(ServerEvent::Accepted);
    let action = m.on_event(ServerEvent::Shutdown(RecvOutcome::Lagged(5)));
    assert_eq!(action, ServerAction::DrainNext);
    assert_eq!(m.phase, ServerPhase::Draining);
    assert!(!m.event_allowed(&ServerEvent::Accepted));
    assert_eq!(
        m.on_event(ServerEvent::TaskFinished(0, true)),
        ServerAction::ReportStopped
    );
    assert_eq!(m.phase, ServerPhase::Stopped);
}

#[test]
fn closed_receiver_stops_accepting_too() {
    let mut m = ServerMachine::new();
    m.on_event(ServerEvent::Accepted);
    assert_eq!(
        m.on_event(ServerEvent::Shutdown(RecvOutcome::Closed)),
        ServerAction::DrainNext
    );
    assert_eq!(m.phase, ServerPhase::Draining);
}

#[test]
fn drain_waits_for_every_task_in_any_order() {
    let mut m = ServerMachine::new();
    for id in 0..3u64 {
        assert_eq!(m.on_event(ServerEvent::Accepted), ServerAction::Spawn(id));
    }
    assert_eq!(
        m.on_event(ServerEvent::Shutdown(RecvOutcome::Received)),
        ServerAction::DrainNext
    );
    // one handler crashed: its join error does not abort the drain
    assert_eq!(
        m.on_event(ServerEvent::TaskFinished(1, false)),
        ServerAction::DrainNext
    );
    assert_eq!(
        m.on_event(ServerEvent::TaskFinished(2, true)),
        ServerAction::DrainNext
    );
    assert_eq!(m.phase, ServerPhase::Draining);
    assert_eq!(
        m.on_event(ServerEvent::TaskFinished(0, true)),
        ServerAction::ReportStopped
    );
    assert_eq!(m.phase, ServerPhase::Stopped);
    assert_eq!(m.live.len(), 0);
}

#[test]
fn transient_accept_error_keeps_the_loop_running() {
    let mut m = ServerMachine::new();
    assert_eq!(m.on_event(ServerEvent::AcceptFailed), ServerAction::KeepAccepting);
    assert_eq!(m.phase, ServerPhase::Accepting);
    assert_eq!(m.on_event(ServerEvent::Accepted), ServerAction::Spawn(0));
}

#[test]
fn no_connection_is_accepted_after_shutdown() {
    let mut m = ServerMachine::new();
    m.on_event(ServerEvent::Accepted);
    m.on_event(ServerEvent::Shutdown(RecvOutcome::Received));
    assert!(!m.event_allowed(&ServerEvent::Accepted));
    assert!(!m.event_allowed(&ServerEvent::AcceptFailed));
}

#[test]
fn only_live_tasks_may_finish() {
    let mut m = ServerMachine::new();
    m.on_event(ServerEvent::Accepted);
    m.on_event(ServerEvent::Shutdown(RecvOutcome::Received));
    assert!(m.event_allowed(&ServerEvent::TaskFinished(0, true)));
    assert!(!m.event_allowed(&ServerEvent::TaskFinished(7, true)));
}

#[test]
fn connection_set_tracks_registrations() {
    let mut s = ConnectionSet::new();
    assert!(s.is_empty());
    s.register(4);
    s.register(9);
    assert_eq!(s.len(), 2);
    assert!(s.contains(4));
    assert!(s.contains(9));
    assert!(!s.contains(5));
    s.complete(4);
    assert_eq!(s.len(), 1);
    assert!(!s.contains(4));
    s.complete(9);
    assert!(s.is_empty());
}
