use graceful_echo::connection::{
    echo_payload, goodbye_line, ConnAction, ConnErrorKind, ConnEvent, ConnMachine, ConnOutcome,
    ConnPhase, ECHO_TIMEOUT_SECS,
};
use graceful_echo::shutdown::RecvOutcome;

#[test]
fn echo_is_byte_identical_for_client_1() {
    let mut m = ConnMachine::new();
    let payload = b"hello from client 1".to_vec();
    let action = m.on_event(ConnEvent::DataRead(payload.clone()));
    assert_eq!(action, ConnAction::Echo(payload));
    assert_eq!(m.phase, ConnPhase::Echoing);
    assert_eq!(m.on_event(ConnEvent::EchoCompleted), ConnAction::Wait);
    assert_eq!(m.phase, ConnPhase::Active);
}

#[test]
fn two_connections_echo_independently() {
    let mut a = ConnMachine::new();
    let mut b = ConnMachine::new();
    let pa = b"hello from client 1".to_vec();
    let pb = b"hello from client 2".to_vec();
    let act_a = a.on_event(ConnEvent::DataRead(pa.clone()));
    let act_b = b.on_event(ConnEvent::DataRead(pb.clone()));
    assert_eq!(act_a, ConnAction::Echo(pa));
    assert_eq!(act_b, ConnAction::Echo(pb));
    assert_eq!(a.on_event(ConnEvent::EchoCompleted), ConnAction::Wait);
    assert_eq!(b.on_event(ConnEvent::EchoCompleted), ConnAction::Wait);
    // both disconnect normally, both end in success
    assert_eq!(a.on_event(ConnEvent::PeerClosed), ConnAction::Close);
    assert_eq!(b.on_event(ConnEvent::PeerClosed), ConnAction::Close);
    assert_eq!(a.phase, ConnPhase::Done(ConnOutcome::Success));
    assert_eq!(b.phase, ConnPhase::Done(ConnOutcome::Success));
}

#[test]
fn shutdown_mid_connection_sends_goodbye_and_closes() {
    let mut m = ConnMachine::new();
    let action = m.on_event(ConnEvent::Shutdown(RecvOutcome::Received));
    assert_eq!(action, ConnAction::SendGoodbye);
    assert_eq!(goodbye_line(), "server shutting down\n");
    assert_eq!(m.phase, ConnPhase::Done(ConnOutcome::Success));
    // no further echo: a finished connection takes no further event
    assert!(!m.event_allowed(&ConnEvent::DataRead(vec![1u8])));
    assert!(!m.event_allowed(&ConnEvent::Shutdown(RecvOutcome::Received)));
}

#[test]
fn degraded_shutdown_signals_close_without_goodbye() {
    let mut lagged = ConnMachine::new();
    assert_eq!(
        lagged.on_event(ConnEvent::Shutdown(RecvOutcome::Lagged(3))),
        ConnAction::Close
    );
    assert_eq!(lagged.phase, ConnPhase::Done(ConnOutcome::Success));

    let mut closed = ConnMachine::new();
    assert_eq!(
        closed.on_event(ConnEvent::Shutdown(RecvOutcome::Closed)),
        ConnAction::Close
    );
    assert_eq!(closed.phase, ConnPhase::Done(ConnOutcome::Success));
}

#[test]
fn peer_disconnect_ends_cleanly() {
    let mut m = ConnMachine::new();
    assert_eq!(m.on_event(ConnEvent::PeerClosed), ConnAction::Close);
    assert_eq!(m.phase, ConnPhase::Done(ConnOutcome::Success));
}

#[test]
fn read_failure_is_classified_as_reset() {
    let mut m = ConnMachine::new();
    assert_eq!(m.on_event(ConnEvent::ReadFailed), ConnAction::Close);
    assert_eq!(m.phase, ConnPhase::Done(ConnOutcome::Failure(ConnErrorKind::Reset)));
    assert_eq!(ConnErrorKind::Reset.describe(), "read failed");
}

#[test]
fn slow_echo_is_classified_as_timeout_not_reset() {
    let mut m = ConnMachine::new();
    let action = m.on_event(ConnEvent::DataRead(b"payload".to_vec()));
    assert_eq!(action, ConnAction::Echo(b"payload".to_vec()));
    assert_eq!(m.on_event(ConnEvent::EchoTimedOut), ConnAction::Close);
    assert_eq!(
        m.phase,
        ConnPhase::Done(ConnOutcome::Failure(ConnErrorKind::TimedOut))
    );
    assert_ne!(
        m.phase,
        ConnPhase::Done(ConnOutcome::Failure(ConnErrorKind::Reset))
    );
    assert_eq!(ConnErrorKind::TimedOut.describe(), "write timeout");
    assert_eq!(ECHO_TIMEOUT_SECS, 2);
}

#[test]
fn shutdown_can_interleave_between_echoes() {
    let mut m = ConnMachine::new();
    m.on_event(ConnEvent::DataRead(b"first".to_vec()));
    m.on_event(ConnEvent::EchoCompleted);
    // the race is re-entered after every echo, so shutdown is seen here
    let action = m.on_event(ConnEvent::Shutdown(RecvOutcome::Received));
    assert_eq!(action, ConnAction::SendGoodbye);
    assert_eq!(m.phase, ConnPhase::Done(ConnOutcome::Success));
}

#[test]
fn echo_payload_takes_the_exact_prefix() {
    let mut buf = b"hello from client 1".to_vec();
    buf.resize(1024, 0u8);
    let out = echo_payload(&buf, 19);
    assert_eq!(out, b"hello from client 1".to_vec());
}

#[test]
fn empty_read_is_not_a_data_event() {
    let m = ConnMachine::new();
    assert!(!m.event_allowed(&ConnEvent::DataRead(Vec::new())));
    assert!(m.event_allowed(&ConnEvent::PeerClosed));
    assert!(!m.event_allowed(&ConnEvent::EchoCompleted));
}
