//! The per-connection handling state machine.
//!
//! A handler services exactly one accepted connection until shutdown, peer
//! disconnect, or an unrecoverable I/O error.  While `Active` it races its
//! shutdown receiver against readability of its socket; every read that
//! yields bytes is echoed back, unchanged, under a bounded time budget.
//! The machine decides; the surrounding process performs the socket
//! operations and reports what happened as the next event.

use crate::shutdown::RecvOutcome;
use vstd::prelude::*;

verus! {

/// Seconds an echo write may take before the connection is classified as
/// timed out and closed.
pub const ECHO_TIMEOUT_SECS: u64 = 2;

/// The notice written, best-effort, to a peer whose connection is still
/// open when shutdown fires.
pub fn goodbye_line() -> (r: &'static str)
    ensures
        r@ == "server shutting down\n"@,
{
    "server shutting down\n"
}

/// The two fatal per-connection error classifications.  They drive the
/// same control flow — the connection closes — but are reported apart
/// for observability.
#[derive(Clone, Copy, Debug, PartialEq, Eq, Structural)]
pub enum ConnErrorKind {
    /// An echo write overran the time budget.
    TimedOut,
    /// The read side failed (peer reset or other I/O failure).
    Reset,
}

impl ConnErrorKind {
    /// The distinct report for each fatal kind.
    pub fn describe(&self) -> (r: &'static str)
        ensures
            *self is TimedOut ==> r@ == "write timeout"@,
            *self is Reset ==> r@ == "read failed"@,
    {
        match self {
            ConnErrorKind::TimedOut => "write timeout",
            ConnErrorKind::Reset => "read failed",
        }
    }
}

/// How a finished connection ended.
#[derive(Clone, Copy, Debug, PartialEq, Eq, Structural)]
pub enum ConnOutcome {
    /// Clean end: shutdown observed, or the peer closed its write side.
    Success,
    /// Fatal end, with its classification.
    Failure(ConnErrorKind),
}

/// Where one connection stands.
#[derive(Clone, Copy, Debug, PartialEq, Eq, Structural)]
pub enum ConnPhase {
    /// Racing the shutdown receiver against socket readability.
    Active,
    /// An echo write is in flight under the time budget.
    Echoing,
    /// The connection is closed; no further event is taken.
    Done(ConnOutcome),
}

/// What the process observed for this connection.
#[derive(Clone, Debug, PartialEq, Eq)]
pub enum ConnEvent {
    /// The connection's shutdown receiver completed with this outcome.
    Shutdown(RecvOutcome),
    /// A read returned these bytes (more than zero of them).
    DataRead(Vec<u8>),
    /// A read returned zero bytes: the peer closed its write side.
    PeerClosed,
    /// A read failed.
    ReadFailed,
    /// The echo write finished within the time budget.
    EchoCompleted,
    /// The echo write overran the time budget.
    EchoTimedOut,
}

/// What the handler must do next.
#[derive(Clone, Debug, PartialEq, Eq)]
pub enum ConnAction {
    /// Re-enter the race between shutdown and readability.
    Wait,
    /// Write exactly these bytes back, bounded by `ECHO_TIMEOUT_SECS`.
    Echo(Vec<u8>),
    /// Write the goodbye line, best-effort, then close.
    SendGoodbye,
    /// Close the connection.
    Close,
}

/// Which events can be observed in which phase.  A finished connection
/// takes no further event at all.
pub open spec fn conn_event_allowed(phase: ConnPhase, e: ConnEvent) -> bool {
    match phase {
        ConnPhase::Active => match e {
            ConnEvent::Shutdown(_) => true,
            ConnEvent::DataRead(p) => p@.len() > 0,
            ConnEvent::PeerClosed => true,
            ConnEvent::ReadFailed => true,
            ConnEvent::EchoCompleted => false,
            ConnEvent::EchoTimedOut => false,
        },
        ConnPhase::Echoing => e is EchoCompleted || e is EchoTimedOut,
        ConnPhase::Done(_) => false,
    }
}

/// The phase the connection moves to on an event.
pub open spec fn conn_next(phase: ConnPhase, e: ConnEvent) -> ConnPhase
    recommends
        conn_event_allowed(phase, e),
{
    match e {
        ConnEvent::Shutdown(_) => ConnPhase::Done(ConnOutcome::Success),
        ConnEvent::DataRead(_) => ConnPhase::Echoing,
        ConnEvent::PeerClosed => ConnPhase::Done(ConnOutcome::Success),
        ConnEvent::ReadFailed => ConnPhase::Done(ConnOutcome::Failure(ConnErrorKind::Reset)),
        ConnEvent::EchoCompleted => ConnPhase::Active,
        ConnEvent::EchoTimedOut => ConnPhase::Done(ConnOutcome::Failure(ConnErrorKind::TimedOut)),
    }
}

/// The action the handler must take on an event.
pub open spec fn conn_action_for(phase: ConnPhase, e: ConnEvent) -> ConnAction
    recommends
        conn_event_allowed(phase, e),
{
    match e {
        ConnEvent::Shutdown(o) => if o is Received {
            ConnAction::SendGoodbye
        } else {
            ConnAction::Close
        },
        ConnEvent::DataRead(p) => ConnAction::Echo(p),
        ConnEvent::PeerClosed => ConnAction::Close,
        ConnEvent::ReadFailed => ConnAction::Close,
        ConnEvent::EchoCompleted => ConnAction::Wait,
        ConnEvent::EchoTimedOut => ConnAction::Close,
    }
}

/// One connection handler's state.
pub struct ConnMachine {
    pub phase: ConnPhase,
}

impl ConnMachine {
    /// A handler for a freshly accepted connection.
    pub fn new() -> (m: Self)
        ensures
            m.phase is Active,
    {
        ConnMachine { phase: ConnPhase::Active }
    }

    /// Whether `e` can be observed in the current phase.  The process
    /// checks this before feeding an event in.
    pub fn event_allowed(&self, e: &ConnEvent) -> (b: bool)
        ensures
            b == conn_event_allowed(self.phase, *e),
    {
        match self.phase {
            ConnPhase::Active => match e {
                ConnEvent::Shutdown(_) => true,
                ConnEvent::DataRead(p) => p.len() > 0,
                ConnEvent::PeerClosed => true,
                ConnEvent::ReadFailed => true,
                ConnEvent::EchoCompleted => false,
                ConnEvent::EchoTimedOut => false,
            },
            ConnPhase::Echoing => match e {
                ConnEvent::EchoCompleted => true,
                ConnEvent::EchoTimedOut => true,
                _ => false,
            },
            ConnPhase::Done(_) => false,
        }
    }

    /// Advance on one observed event and say what to do next.
    ///
    /// - Shutdown observed: offer the goodbye line (only a cleanly received
    ///   event earns one; lag and closure close silently) and finish
    ///   successfully, whatever becomes of that best-effort write.
    /// - Zero-byte read: the peer is done; finish successfully.
    /// - Bytes read: echo exactly those bytes under the time budget.
    /// - Read failure: finish with a reset classification.
    /// - Echo finished in time: return to the race.
    /// - Echo overran the budget: finish with a timeout classification.
    pub fn on_event(&mut self, e: ConnEvent) -> (a: ConnAction)
        requires
            conn_event_allowed(old(self).phase, e),
        ensures
            final(self).phase == conn_next(old(self).phase, e),
            a == conn_action_for(old(self).phase, e),
    {
        match e {
            ConnEvent::Shutdown(o) => {
                self.phase = ConnPhase::Done(ConnOutcome::Success);
                match o {
                    RecvOutcome::Received => ConnAction::SendGoodbye,
                    RecvOutcome::Lagged(_) => ConnAction::Close,
                    RecvOutcome::Closed => ConnAction::Close,
                }
            },
            ConnEvent::DataRead(p) => {
                self.phase = ConnPhase::Echoing;
                ConnAction::Echo(p)
            },
            ConnEvent::PeerClosed => {
                self.phase = ConnPhase::Done(ConnOutcome::Success);
                ConnAction::Close
            },
            ConnEvent::ReadFailed => {
                self.phase = ConnPhase::Done(ConnOutcome::Failure(ConnErrorKind::Reset));
                ConnAction::Close
            },
            ConnEvent::EchoCompleted => {
                self.phase = ConnPhase::Active;
                ConnAction::Wait
            },
            ConnEvent::EchoTimedOut => {
                self.phase = ConnPhase::Done(ConnOutcome::Failure(ConnErrorKind::TimedOut));
                ConnAction::Close
            },
        }
    }
}

/// The exact bytes to echo for a read that put `n` bytes at the front of
/// `buf`: the first `n` bytes, unchanged.
pub fn echo_payload(buf: &Vec<u8>, n: usize) -> (r: Vec<u8>)
    requires
        n <= buf@.len(),
    ensures
        r@ == buf@.subrange(0, n as int),
{
    let mut out: Vec<u8> = Vec::new();
    let mut i: usize = 0;
    while i < n
        invariant
            i <= n,
            n <= buf@.len(),
            out@ == buf@.subrange(0, i as int),
        decreases n - i,
    {
        out.push(buf[i]);
        proof {
            assert(out@ =~= buf@.subrange(0, i + 1));
        }
        i = i + 1;
    }
    out
}

/// Echo fidelity: the bytes the machine orders echoed for a read are
/// exactly the bytes that were read, byte for byte.
pub proof fn lemma_echo_is_exact(phase: ConnPhase, p: Vec<u8>)
    requires
        phase is Active,
        p@.len() > 0,
    ensures
        conn_action_for(phase, ConnEvent::DataRead(p)) == ConnAction::Echo(p),
        conn_next(phase, ConnEvent::DataRead(p)) is Echoing,
{
}

/// A connection that observes the shutdown event is offered exactly the
/// goodbye line, ends successfully, and takes no further event — in
/// particular, no echo can follow.
pub proof fn lemma_shutdown_closes_connection(phase: ConnPhase)
    requires
        phase is Active,
    ensures
        conn_action_for(phase, ConnEvent::Shutdown(RecvOutcome::Received))
            == ConnAction::SendGoodbye,
        conn_next(phase, ConnEvent::Shutdown(RecvOutcome::Received)) == ConnPhase::Done(
            ConnOutcome::Success,
        ),
        forall|e: ConnEvent|
            !conn_event_allowed(
                conn_next(phase, ConnEvent::Shutdown(RecvOutcome::Received)),
                e,
            ),
{
}

/// A lagged or closed shutdown receiver still ends the connection
/// successfully — a degraded signal is a shutdown trigger, never a fatal
/// error — only the goodbye line is not offered.
pub proof fn lemma_degraded_shutdown_closes_connection(phase: ConnPhase, o: RecvOutcome)
    requires
        phase is Active,
        !(o is Received),
    ensures
        conn_action_for(phase, ConnEvent::Shutdown(o)) == ConnAction::Close,
        conn_next(phase, ConnEvent::Shutdown(o)) == ConnPhase::Done(ConnOutcome::Success),
{
}

/// An echo that overruns the time budget is classified as a timeout,
/// never as a reset, and the connection is closed: no further event is
/// taken.
pub proof fn lemma_timeout_distinct_from_reset(phase: ConnPhase)
    requires
        phase is Echoing,
    ensures
        conn_next(phase, ConnEvent::EchoTimedOut) == ConnPhase::Done(
            ConnOutcome::Failure(ConnErrorKind::TimedOut),
        ),
        conn_next(phase, ConnEvent::EchoTimedOut) != ConnPhase::Done(
            ConnOutcome::Failure(ConnErrorKind::Reset),
        ),
        forall|e: ConnEvent|
            !conn_event_allowed(conn_next(phase, ConnEvent::EchoTimedOut), e),
{
}

} // verus!
