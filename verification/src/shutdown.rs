//! The one-shot broadcast shutdown signal.
//!
//! A single cancellation event is distributed to a dynamically growing set
//! of receivers.  Every receiver observes the event exactly once; receivers
//! created (or resubscribed) at any point before they consume it still
//! observe it, because a sent event stays observable forever.

use vstd::prelude::*;

verus! {

/// Number of queued events the process allocates for the broadcast channel
/// that carries the shutdown signal.
pub const SHUTDOWN_CHANNEL_CAPACITY: usize = 16;

/// What a completed wait on a shutdown receiver reports.
///
/// All three classifications instruct the observer to stop: lag and closure
/// are degraded but still actionable shutdown signals, never silent failures.
#[derive(Clone, Copy, Debug, PartialEq, Eq, Structural)]
pub enum RecvOutcome {
    /// The shutdown event itself was delivered.
    Received,
    /// The receiver's queue overflowed and it missed this many events.
    Lagged(u64),
    /// The broadcaster was dropped.
    Closed,
}

/// Model of the broadcaster together with every receiver handle bound to it.
///
/// The state is one fire-once flag plus, per receiver, whether that receiver
/// has already consumed the event.  Receivers are identified by the index
/// they were handed at subscription.
pub struct ShutdownChannel {
    sent: bool,
    dropped: bool,
    consumed: Vec<bool>,
}

impl ShutdownChannel {
    /// Whether the shutdown event has been sent.  No operation ever
    /// resets this: once sent, the event stays observable.
    pub closed spec fn sent(self) -> bool {
        self.sent
    }

    /// Whether the broadcaster was dropped.
    pub closed spec fn dropped(self) -> bool {
        self.dropped
    }

    /// How many receiver handles have been created.
    pub closed spec fn receiver_count(self) -> nat {
        self.consumed@.len()
    }

    /// Whether receiver `r` has already consumed the event.
    pub closed spec fn observed(self, r: int) -> bool {
        self.consumed@[r]
    }

    /// A fresh broadcaster: nothing sent, nothing subscribed.
    pub fn new() -> (c: Self)
        ensures
            !c.sent(),
            !c.dropped(),
            c.receiver_count() == 0,
    {
        ShutdownChannel { sent: false, dropped: false, consumed: Vec::new() }
    }

    /// Create a receiver bound to this broadcaster.  The new receiver will
    /// observe a future send, and — because a sent event persists — also a
    /// send that already happened.
    pub fn subscribe(&mut self) -> (r: usize)
        requires
            !old(self).dropped(),
        ensures
            r == old(self).receiver_count(),
            final(self).receiver_count() == old(self).receiver_count() + 1,
            final(self).sent() == old(self).sent(),
            !final(self).dropped(),
            !final(self).observed(r as int),
            forall|i: int|
                0 <= i < old(self).receiver_count() ==> final(self).observed(i) == old(
                    self,
                ).observed(i),
    {
        let id = self.consumed.len();
        self.consumed.push(false);
        id
    }

    /// Obtain a fresh receiver from an existing one, without consuming the
    /// existing receiver's own view of the event.  Lag bookkeeping of the
    /// new handle starts clean; otherwise this is a subscription like any
    /// other.
    pub fn resubscribe(&mut self, from: usize) -> (r: usize)
        requires
            !old(self).dropped(),
            from < old(self).receiver_count(),
        ensures
            r == old(self).receiver_count(),
            final(self).receiver_count() == old(self).receiver_count() + 1,
            final(self).sent() == old(self).sent(),
            !final(self).dropped(),
            !final(self).observed(r as int),
            forall|i: int|
                0 <= i < old(self).receiver_count() ==> final(self).observed(i) == old(
                    self,
                ).observed(i),
    {
        self.subscribe()
    }

    /// Fire the shutdown event.  Fire-and-forget: it succeeds whatever the
    /// number of subscribed receivers, including zero, and never blocks.
    /// The design sends at most once, which is why a receiver of this
    /// channel can never lag.
    pub fn send(&mut self)
        requires
            !old(self).sent(),
            !old(self).dropped(),
        ensures
            final(self).sent(),
            !final(self).dropped(),
            final(self).receiver_count() == old(self).receiver_count(),
            forall|i: int|
                0 <= i < old(self).receiver_count() ==> final(self).observed(i) == old(
                    self,
                ).observed(i),
    {
        self.sent = true;
    }

    /// Drop the broadcaster.  Receivers that have not consumed a sent event
    /// still receive it first; after that (or with no event sent at all)
    /// they learn of the closure.
    pub fn close(&mut self)
        ensures
            final(self).dropped(),
            final(self).sent() == old(self).sent(),
            final(self).receiver_count() == old(self).receiver_count(),
            forall|i: int|
                0 <= i < old(self).receiver_count() ==> final(self).observed(i) == old(
                    self,
                ).observed(i),
    {
        self.dropped = true;
    }

    /// One poll of receiver `r`'s wait.  `None` means the wait would keep
    /// pending: no event has been sent and the broadcaster is still alive.
    ///
    /// The event is delivered if and only if it was sent and `r` has not
    /// consumed it yet, and delivery marks it consumed for `r` alone:
    /// each receiver observes the event exactly once.
    pub fn poll_recv(&mut self, r: usize) -> (out: Option<RecvOutcome>)
        requires
            r < old(self).receiver_count(),
        ensures
            final(self).sent() == old(self).sent(),
            final(self).dropped() == old(self).dropped(),
            final(self).receiver_count() == old(self).receiver_count(),
            forall|i: int|
                0 <= i < old(self).receiver_count() && i != r ==> final(self).observed(i) == old(
                    self,
                ).observed(i),
            old(self).sent() && !old(self).observed(r as int) ==> out == Some(
                RecvOutcome::Received,
            ) && final(self).observed(r as int),
            !(old(self).sent() && !old(self).observed(r as int)) ==> {
                &&& final(self).observed(r as int) == old(self).observed(r as int)
                &&& if old(self).dropped() {
                    out == Some(RecvOutcome::Closed)
                } else {
                    out is None
                }
            },
            forall|n: u64| out != Some(RecvOutcome::Lagged(n)),
    {
        if self.sent && !self.consumed[r] {
            self.consumed.set(r, true);
            Some(RecvOutcome::Received)
        } else if self.dropped {
            Some(RecvOutcome::Closed)
        } else {
            None
        }
    }
}

} // verus!
