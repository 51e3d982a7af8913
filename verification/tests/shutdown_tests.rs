use graceful_echo::shutdown::{RecvOutcome, ShutdownChannel, SHUTDOWN_CHANNEL_CAPACITY};

#[test]
fn send_with_zero_receivers_succeeds() {
    let mut ch = ShutdownChannel::new();
    ch.send();
    // a receiver created only after the send still observes the event
    let r = ch.subscribe();
    assert_eq!(ch.poll_recv(r), Some(RecvOutcome::Received));
}

#[test]
fn receiver_observes_event_exactly_once() {
    let mut ch = ShutdownChannel::new();
    let r = ch.subscribe();
    ch.send();
    assert_eq!(ch.poll_recv(r), Some(RecvOutcome::Received));
    // consumed: the broadcaster is still alive, so the wait would pend
    assert_eq!(ch.poll_recv(r), None);
    assert_eq!(ch.poll_recv(r), None);
}

#[test]
fn pending_before_send() {
    let mut ch = ShutdownChannel::new();
    let r = ch.subscribe();
    assert_eq!(ch.poll_recv(r), None);
}

#[test]
fn resubscribed_receiver_observes_sent_event() {
    let mut ch = ShutdownChannel::new();
    let parent = ch.subscribe();
    ch.send();
    let child = ch.resubscribe(parent);
    // the fresh handle observes the event without consuming the parent's
    assert_eq!(ch.poll_recv(child), Some(RecvOutcome::Received));
    assert_eq!(ch.poll_recv(parent), Some(RecvOutcome::Received));
}

#[test]
fn closure_without_event_reports_closed() {
    let mut ch = ShutdownChannel::new();
    let r = ch.subscribe();
    ch.close();
    assert_eq!(ch.poll_recv(r), Some(RecvOutcome::Closed));
}

#[test]
fn event_is_delivered_before_closure() {
    let mut ch = ShutdownChannel::new();
    let r = ch.subscribe();
    ch.send();
    ch.close();
    assert_eq!(ch.poll_recv(r), Some(RecvOutcome::Received));
    assert_eq!(ch.poll_recv(r), Some(RecvOutcome::Closed));
}

#[test]
fn channel_capacity_matches_design() {
    assert_eq!(SHUTDOWN_CHANNEL_CAPACITY, 16);
}
