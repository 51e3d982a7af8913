//! The server's accept/drain state machine and its set of live connection
//! tasks.
//!
//! While `Accepting`, the server races its shutdown receiver against the
//! listener; a shutdown observation — in any classification — ends
//! accepting for good.  It then drains: it waits for every previously
//! spawned handler task to finish, whatever order they finish in and
//! however they finish, and only then stops.

use crate::shutdown::RecvOutcome;
use vstd::prelude::*;

verus! {

/// The fixed address the listener binds.
pub fn bind_address() -> (r: &'static str)
    ensures
        r@ == "127.0.0.1:3011"@,
{
    "127.0.0.1:3011"
}

/// Removing one element of a duplicate-free sequence removes exactly that
/// element from its set, and keeps the sequence duplicate-free.
proof fn lemma_to_set_remove_unique(s: Seq<u64>, i: int)
    requires
        s.no_duplicates(),
        0 <= i < s.len(),
    ensures
        s.remove(i).to_set() =~= s.to_set().remove(s[i]),
        s.remove(i).no_duplicates(),
{
    s.remove_ensures(i);
    assert forall|x: u64| s.remove(i).to_set().contains(x) implies s.to_set().remove(
        s[i],
    ).contains(x) by {
        let j = choose|j: int| 0 <= j < s.remove(i).len() && s.remove(i)[j] == x;
        if j < i {
            assert(s[j] == x);
        } else {
            assert(s[j + 1] == x);
        }
    }
    assert forall|x: u64| s.to_set().remove(s[i]).contains(x) implies s.remove(i).to_set().contains(
        x,
    ) by {
        let j = choose|j: int| 0 <= j < s.len() && s[j] == x;
        if j < i {
            assert(s.remove(i)[j] == x);
        } else {
            assert(j != i);
            assert(s.remove(i)[j - 1] == x);
        }
    }
}

/// A sequence's set is empty exactly when the sequence is.
proof fn lemma_to_set_empty_iff(s: Seq<u64>)
    ensures
        (s.to_set() == Set::<u64>::empty()) <==> s.len() == 0,
{
    if s.len() == 0 {
        assert(s.to_set() =~= Set::<u64>::empty());
    } else {
        assert(s.contains(s[0]));
        assert(s.to_set().contains(s[0]));
    }
}

/// The registry of live connection handler tasks, keyed by the task
/// identifier handed out at spawn time.
pub struct ConnectionSet {
    ids: Vec<u64>,
}

impl ConnectionSet {
    /// The registered identifiers, in registration order.
    pub closed spec fn ids(self) -> Seq<u64> {
        self.ids@
    }

    /// The registry as a set: registration order carries no meaning.
    pub open spec fn as_set(self) -> Set<u64> {
        self.ids().to_set()
    }

    /// Each live task is registered once.
    pub open spec fn wf(self) -> bool {
        self.ids().no_duplicates()
    }

    /// An empty registry.
    pub fn new() -> (s: Self)
        ensures
            s.wf(),
            s.as_set() == Set::<u64>::empty(),
            s.ids().len() == 0,
    {
        let s = ConnectionSet { ids: Vec::new() };
        proof {
            lemma_to_set_empty_iff(s.ids());
        }
        s
    }

    /// How many tasks are live.
    pub fn len(&self) -> (n: usize)
        ensures
            n == self.ids().len(),
    {
        self.ids.len()
    }

    /// Whether no task is live.
    pub fn is_empty(&self) -> (b: bool)
        ensures
            b == (self.as_set() == Set::<u64>::empty()),
            b == (self.ids().len() == 0),
    {
        proof {
            lemma_to_set_empty_iff(self.ids());
        }
        self.ids.len() == 0
    }

    /// Whether task `id` is live.
    pub fn contains(&self, id: u64) -> (b: bool)
        ensures
            b == self.as_set().contains(id),
    {
        let mut i: usize = 0;
        while i < self.ids.len()
            invariant
                i <= self.ids().len(),
                forall|j: int| 0 <= j < i ==> self.ids()[j] != id,
            decreases self.ids().len() - i,
        {
            if self.ids[i] == id {
                proof {
                    assert(self.ids().contains(id));
                }
                return true;
            }
            i = i + 1;
        }
        proof {
            assert(!self.ids().contains(id));
        }
        false
    }

    /// Record a newly spawned task.
    pub fn register(&mut self, id: u64)
        requires
            old(self).wf(),
            !old(self).as_set().contains(id),
        ensures
            final(self).wf(),
            final(self).as_set() == old(self).as_set().insert(id),
            final(self).ids().len() == old(self).ids().len() + 1,
    {
        proof {
            assert(!old(self).ids().contains(id));
        }
        self.ids.push(id);
        proof {
            let pre = old(self).ids();
            assert(self.ids() =~= pre + seq![id]);
            Seq::<u64>::lemma_to_set_insert_commutes(pre, id);
            assert forall|j: int, k: int|
                0 <= j < self.ids().len() && 0 <= k < self.ids().len() && j != k implies self.ids()[j]
                != self.ids()[k] by {
                if j < pre.len() && k < pre.len() {
                } else if k == pre.len() {
                    assert(pre.contains(pre[j]));
                } else {
                    assert(pre.contains(pre[k]));
                }
            }
        }
    }

    /// Remove a task that has finished. No ordering is assumed: any live
    /// task may finish next.
    pub fn complete(&mut self, id: u64)
        requires
            old(self).wf(),
            old(self).as_set().contains(id),
        ensures
            final(self).wf(),
            final(self).as_set() == old(self).as_set().remove(id),
            final(self).ids().len() + 1 == old(self).ids().len(),
    {
        proof {
            assert(old(self).ids().contains(id));
        }
        let mut i: usize = 0;
        while i < self.ids.len()
            invariant
                *self == *old(self),
                self.wf(),
                i <= self.ids().len(),
                self.ids().contains(id),
                forall|j: int| 0 <= j < i ==> self.ids()[j] != id,
            decreases self.ids().len() - i,
        {
            if self.ids[i] == id {
                proof {
                    lemma_to_set_remove_unique(self.ids(), i as int);
                }
                self.ids.remove(i);
                return ;
            }
            i = i + 1;
        }
        proof {
            assert(false);
        }
    }
}

/// Where the server stands.
#[derive(Clone, Copy, Debug, PartialEq, Eq, Structural)]
pub enum ServerPhase {
    /// Racing the shutdown receiver against the listener.
    Accepting,
    /// Shutdown observed: no longer accepting, waiting for the live tasks.
    Draining,
    /// Terminal: every previously registered task has finished.
    Stopped,
}

/// What the process observed at the server's waits.
#[derive(Clone, Copy, Debug, PartialEq, Eq)]
pub enum ServerEvent {
    /// The server's own shutdown receiver completed with this outcome.
    Shutdown(RecvOutcome),
    /// The listener accepted a connection.
    Accepted,
    /// The listener reported a transient accept error.
    AcceptFailed,
    /// The handler task with this identifier finished; the flag says
    /// whether it returned (`true`) or was joined with an error (`false`).
    TaskFinished(u64, bool),
}

/// What the server loop must do next.
#[derive(Clone, Copy, Debug, PartialEq, Eq)]
pub enum ServerAction {
    /// Re-enter the race between shutdown and the listener.
    KeepAccepting,
    /// Resubscribe a fresh receiver, spawn a handler task under this
    /// identifier, then re-enter the race.
    Spawn(u64),
    /// Wait for the next live task to finish.
    DrainNext,
    /// Report that the server exited cleanly.
    ReportStopped,
}

/// Mathematical state of the server loop: its phase, the set of live task
/// identifiers, and the next identifier to hand out.
#[verifier::ext_equal]
pub struct ServerModel {
    pub phase: ServerPhase,
    pub live: Set<u64>,
    pub next_id: u64,
}

/// The state the server starts in.
pub open spec fn init_model() -> ServerModel {
    ServerModel { phase: ServerPhase::Accepting, live: Set::empty(), next_id: 0 }
}

/// What holds of every reachable server state: the live set is finite,
/// identifiers are handed out in order, and a stopped server has drained
/// every task.
pub open spec fn model_wf(m: ServerModel) -> bool {
    &&& m.live.finite()
    &&& forall|id: u64| m.live.contains(id) ==> id < m.next_id
    &&& m.phase is Stopped ==> m.live == Set::<u64>::empty()
}

/// Which events the server can observe in which phase.  Once the server
/// has left `Accepting` its receiver and listener are no longer polled,
/// so only task completions remain; a stopped server observes nothing.
pub open spec fn server_event_allowed(m: ServerModel, e: ServerEvent) -> bool {
    match e {
        ServerEvent::Shutdown(_) => m.phase is Accepting,
        ServerEvent::Accepted => m.phase is Accepting && m.next_id < u64::MAX,
        ServerEvent::AcceptFailed => m.phase is Accepting,
        ServerEvent::TaskFinished(id, _) => m.phase is Draining && m.live.contains(id),
    }
}

/// The server's transition: next state and required action.
///
/// - A shutdown observation — whatever its classification — ends
///   accepting; with no live task the server stops at once.
/// - An accepted connection is registered under a fresh identifier and
///   spawned; accepting continues.
/// - A transient accept error changes nothing.
/// - A finished task leaves the registry — whether it returned or its
///   join failed — and the server stops when the registry empties.
pub open spec fn server_step(m: ServerModel, e: ServerEvent) -> (ServerModel, ServerAction)
    recommends
        server_event_allowed(m, e),
{
    match e {
        ServerEvent::Shutdown(_) => if m.live == Set::<u64>::empty() {
            (
                ServerModel { phase: ServerPhase::Stopped, live: m.live, next_id: m.next_id },
                ServerAction::ReportStopped,
            )
        } else {
            (
                ServerModel { phase: ServerPhase::Draining, live: m.live, next_id: m.next_id },
                ServerAction::DrainNext,
            )
        },
        ServerEvent::Accepted => (
            ServerModel {
                phase: ServerPhase::Accepting,
                live: m.live.insert(m.next_id),
                next_id: (m.next_id + 1) as u64,
            },
            ServerAction::Spawn(m.next_id),
        ),
        ServerEvent::AcceptFailed => (m, ServerAction::KeepAccepting),
        ServerEvent::TaskFinished(id, _) => if m.live.remove(id) == Set::<u64>::empty() {
            (
                ServerModel {
                    phase: ServerPhase::Stopped,
                    live: m.live.remove(id),
                    next_id: m.next_id,
                },
                ServerAction::ReportStopped,
            )
        } else {
            (
                ServerModel {
                    phase: ServerPhase::Draining,
                    live: m.live.remove(id),
                    next_id: m.next_id,
                },
                ServerAction::DrainNext,
            )
        },
    }
}

/// The server loop's state, executably: phase, live task registry, next
/// identifier.
pub struct ServerMachine {
    pub phase: ServerPhase,
    pub live: ConnectionSet,
    pub next_id: u64,
}

impl ServerMachine {
    /// The mathematical state this machine is in.
    pub open spec fn model(self) -> ServerModel {
        ServerModel { phase: self.phase, live: self.live.as_set(), next_id: self.next_id }
    }

    pub open spec fn wf(self) -> bool {
        &&& self.live.wf()
        &&& model_wf(self.model())
    }

    /// A freshly started server: accepting, with no live task.
    pub fn new() -> (s: Self)
        ensures
            s.wf(),
            s.model() == init_model(),
    {
        let s = ServerMachine {
            phase: ServerPhase::Accepting,
            live: ConnectionSet::new(),
            next_id: 0,
        };
        proof {
            assert(s.model() =~= init_model());
        }
        s
    }

    /// Whether `e` can be observed in the current state.  The process
    /// checks this before feeding an event in.
    pub fn event_allowed(&self, e: &ServerEvent) -> (b: bool)
        ensures
            b == server_event_allowed(self.model(), *e),
    {
        match e {
            ServerEvent::Shutdown(_) => self.phase == ServerPhase::Accepting,
            ServerEvent::Accepted => self.phase == ServerPhase::Accepting && self.next_id
                < u64::MAX,
            ServerEvent::AcceptFailed => self.phase == ServerPhase::Accepting,
            ServerEvent::TaskFinished(id, _) => self.phase == ServerPhase::Draining
                && self.live.contains(*id),
        }
    }

    /// Advance on one observed event and say what to do next.
    pub fn on_event(&mut self, e: ServerEvent) -> (a: ServerAction)
        requires
            old(self).wf(),
            server_event_allowed(old(self).model(), e),
        ensures
            final(self).wf(),
            final(self).model() == server_step(old(self).model(), e).0,
            a == server_step(old(self).model(), e).1,
    {
        match e {
            ServerEvent::Shutdown(_) => {
                if self.live.is_empty() {
                    self.phase = ServerPhase::Stopped;
                    proof {
                        assert(self.model() =~= server_step(old(self).model(), e).0);
                    }
                    ServerAction::ReportStopped
                } else {
                    self.phase = ServerPhase::Draining;
                    proof {
                        assert(self.model() =~= server_step(old(self).model(), e).0);
                    }
                    ServerAction::DrainNext
                }
            },
            ServerEvent::Accepted => {
                let id = self.next_id;
                self.live.register(id);
                self.next_id = id + 1;
                proof {
                    assert(self.model() =~= server_step(old(self).model(), e).0);
                }
                ServerAction::Spawn(id)
            },
            ServerEvent::AcceptFailed => {
                proof {
                    assert(self.model() =~= server_step(old(self).model(), e).0);
                }
                ServerAction::KeepAccepting
            },
            ServerEvent::TaskFinished(id, _) => {
                self.live.complete(id);
                if self.live.is_empty() {
                    self.phase = ServerPhase::Stopped;
                    proof {
                        assert(self.model() =~= server_step(old(self).model(), e).0);
                    }
                    ServerAction::ReportStopped
                } else {
                    self.phase = ServerPhase::Draining;
                    proof {
                        assert(self.model() =~= server_step(old(self).model(), e).0);
                    }
                    ServerAction::DrainNext
                }
            },
        }
    }
}

/// The state after observing a whole trace of events.
pub open spec fn server_run(m: ServerModel, t: Seq<ServerEvent>) -> ServerModel
    decreases t.len(),
{
    if t.len() == 0 {
        m
    } else {
        server_run(server_step(m, t[0]).0, t.skip(1))
    }
}

/// Whether each event of the trace is observable in the state it meets.
pub open spec fn server_trace_allowed(m: ServerModel, t: Seq<ServerEvent>) -> bool
    decreases t.len(),
{
    t.len() == 0 || (server_event_allowed(m, t[0]) && server_trace_allowed(
        server_step(m, t[0]).0,
        t.skip(1),
    ))
}

/// The action required at each step of the trace.
pub open spec fn server_actions(m: ServerModel, t: Seq<ServerEvent>) -> Seq<ServerAction>
    decreases t.len(),
{
    if t.len() == 0 {
        Seq::empty()
    } else {
        seq![server_step(m, t[0]).1] + server_actions(server_step(m, t[0]).0, t.skip(1))
    }
}

/// The identifiers handed to connections accepted along the trace.
pub open spec fn accepted_ids(m: ServerModel, t: Seq<ServerEvent>) -> Set<u64>
    decreases t.len(),
{
    if t.len() == 0 {
        Set::empty()
    } else {
        let rest = accepted_ids(server_step(m, t[0]).0, t.skip(1));
        if t[0] is Accepted {
            rest.insert(m.next_id)
        } else {
            rest
        }
    }
}

/// The identifiers of handler tasks that finished along the trace.
pub open spec fn finished_ids(t: Seq<ServerEvent>) -> Set<u64>
    decreases t.len(),
{
    if t.len() == 0 {
        Set::empty()
    } else {
        let rest = finished_ids(t.skip(1));
        match t[0] {
            ServerEvent::TaskFinished(id, _) => rest.insert(id),
            _ => rest,
        }
    }
}

/// A trace demands one action per event.
pub proof fn lemma_server_actions_len(m: ServerModel, t: Seq<ServerEvent>)
    ensures
        server_actions(m, t).len() == t.len(),
    decreases t.len(),
{
    if t.len() > 0 {
        lemma_server_actions_len(server_step(m, t[0]).0, t.skip(1));
    }
}

/// Bookkeeping along any observable trace: the tasks still live are
/// exactly those accepted — before or during the trace — and not yet
/// finished; only registered tasks finish; identifiers accepted along the
/// trace are fresh.
pub proof fn lemma_server_run_accounting(m: ServerModel, t: Seq<ServerEvent>)
    requires
        model_wf(m),
        server_trace_allowed(m, t),
    ensures
        model_wf(server_run(m, t)),
        server_run(m, t).live =~= m.live.union(accepted_ids(m, t)).difference(finished_ids(t)),
        finished_ids(t).subset_of(m.live.union(accepted_ids(m, t))),
        forall|id: u64| accepted_ids(m, t).contains(id) ==> id >= m.next_id,
    decreases t.len(),
{
    if t.len() == 0 {
        assert(server_run(m, t).live =~= m.live.union(accepted_ids(m, t)).difference(
            finished_ids(t),
        ));
        assert(finished_ids(t).subset_of(m.live.union(accepted_ids(m, t))));
    } else {
        let e = t[0];
        let m1 = server_step(m, e).0;
        let a1 = accepted_ids(m1, t.skip(1));
        let f1 = finished_ids(t.skip(1));
        match e {
            ServerEvent::Shutdown(_) => {
                assert(model_wf(m1));
                lemma_server_run_accounting(m1, t.skip(1));
                assert(server_run(m, t).live =~= m.live.union(accepted_ids(m, t)).difference(
                    finished_ids(t),
                ));
            },
            ServerEvent::AcceptFailed => {
                assert(model_wf(m1));
                lemma_server_run_accounting(m1, t.skip(1));
                assert(server_run(m, t).live =~= m.live.union(accepted_ids(m, t)).difference(
                    finished_ids(t),
                ));
            },
            ServerEvent::Accepted => {
                assert(model_wf(m1));
                lemma_server_run_accounting(m1, t.skip(1));
                assert(m1.live.union(a1) =~= m.live.union(accepted_ids(m, t)));
                assert(server_run(m, t).live =~= m.live.union(accepted_ids(m, t)).difference(
                    finished_ids(t),
                ));
                assert forall|id: u64| accepted_ids(m, t).contains(id) implies id >= m.next_id by {
                    if a1.contains(id) {
                        assert(id >= m1.next_id);
                    }
                }
            },
            ServerEvent::TaskFinished(id, _) => {
                assert(model_wf(m1));
                lemma_server_run_accounting(m1, t.skip(1));
                assert(id < m.next_id);
                assert(!a1.contains(id));
                assert(server_run(m, t).live =~= m.live.union(accepted_ids(m, t)).difference(
                    finished_ids(t),
                ));
                assert(finished_ids(t).subset_of(m.live.union(accepted_ids(m, t))));
            },
        }
    }
}

/// Liveness of the drain with no abandonment: a freshly started server
/// reaches `Stopped` only once the handler task of every connection it
/// accepted has finished — the finished tasks are exactly the accepted
/// ones, and none stays live.
pub proof fn lemma_drain_awaits_every_handler(t: Seq<ServerEvent>)
    requires
        server_trace_allowed(init_model(), t),
        server_run(init_model(), t).phase is Stopped,
    ensures
        finished_ids(t) =~= accepted_ids(init_model(), t),
        server_run(init_model(), t).live =~= Set::<u64>::empty(),
{
    let m0 = init_model();
    lemma_server_run_accounting(m0, t);
    assert(m0.live.union(accepted_ids(m0, t)) =~= accepted_ids(m0, t));
    assert(server_run(m0, t).live =~= Set::<u64>::empty());
    assert forall|id: u64| accepted_ids(m0, t).contains(id) implies finished_ids(t).contains(
        id,
    ) by {
        if !finished_ids(t).contains(id) {
            assert(server_run(m0, t).live.contains(id));
        }
    }
    assert(finished_ids(t) =~= accepted_ids(m0, t));
}

/// Once the server has left `Accepting`, no continuation of events ever
/// returns it there or makes it spawn another handler: after shutdown is
/// observed, no further connection is accepted.
pub proof fn lemma_no_spawn_after_accepting_ends(m: ServerModel, t: Seq<ServerEvent>)
    requires
        !(m.phase is Accepting),
        server_trace_allowed(m, t),
    ensures
        !(server_run(m, t).phase is Accepting),
        forall|i: int| 0 <= i < t.len() ==> !(#[trigger] server_actions(m, t)[i] is Spawn),
    decreases t.len(),
{
    if t.len() > 0 {
        let e = t[0];
        let m1 = server_step(m, e).0;
        lemma_no_spawn_after_accepting_ends(m1, t.skip(1));
        lemma_server_actions_len(m, t);
        lemma_server_actions_len(m1, t.skip(1));
        assert forall|i: int| 0 <= i < t.len() implies !(#[trigger] server_actions(m, t)[i]
            is Spawn) by {
            if i > 0 {
                assert(server_actions(m, t)[i] == server_actions(m1, t.skip(1))[i - 1]);
            }
        }
    }
}

/// After the step that observes shutdown, no later step of the trace
/// spawns a handler: every connection the server serves was accepted
/// before the shutdown observation.
pub proof fn lemma_no_spawn_after_shutdown_event(m: ServerModel, t: Seq<ServerEvent>, i: int)
    requires
        server_trace_allowed(m, t),
        0 <= i < t.len(),
        t[i] is Shutdown,
    ensures
        forall|j: int| i < j < t.len() ==> !(#[trigger] server_actions(m, t)[j] is Spawn),
    decreases i,
{
    let m1 = server_step(m, t[0]).0;
    lemma_server_actions_len(m, t);
    lemma_server_actions_len(m1, t.skip(1));
    if i == 0 {
        lemma_no_spawn_after_accepting_ends(m1, t.skip(1));
        assert forall|j: int| 0 < j < t.len() implies !(#[trigger] server_actions(m, t)[j]
            is Spawn) by {
            assert(server_actions(m, t)[j] == server_actions(m1, t.skip(1))[j - 1]);
        }
    } else {
        assert(t.skip(1)[i - 1] == t[i]);
        lemma_no_spawn_after_shutdown_event(m1, t.skip(1), i - 1);
        assert forall|j: int| i < j < t.len() implies !(#[trigger] server_actions(m, t)[j]
            is Spawn) by {
            assert(server_actions(m, t)[j] == server_actions(m1, t.skip(1))[j - 1]);
        }
    }
}

/// Every classification a shutdown wait can complete with — the event,
/// lag, or closure — ends accepting, and all act exactly alike.
pub proof fn lemma_any_shutdown_classification_stops_accepting(m: ServerModel, o: RecvOutcome)
    ensures
        !(server_step(m, ServerEvent::Shutdown(o)).0.phase is Accepting),
        server_step(m, ServerEvent::Shutdown(o)) == server_step(
            m,
            ServerEvent::Shutdown(RecvOutcome::Received),
        ),
{
}

/// A handler that crashed is joined like one that returned: the join
/// outcome plays no part in the drain's progress.
pub proof fn lemma_join_failure_does_not_abort_drain(m: ServerModel, id: u64)
    ensures
        server_step(m, ServerEvent::TaskFinished(id, false)) == server_step(
            m,
            ServerEvent::TaskFinished(id, true),
        ),
{
}

/// Drain progress: every task completion strictly shrinks the live set,
/// so from `Draining` the server stops after exactly as many completions
/// as it has live tasks — the drain terminates.
pub proof fn lemma_drain_progress(m: ServerModel, id: u64, clean: bool)
    requires
        model_wf(m),
        server_event_allowed(m, ServerEvent::TaskFinished(id, clean)),
    ensures
        server_step(m, ServerEvent::TaskFinished(id, clean)).0.live.len() + 1 == m.live.len(),
        (server_step(m, ServerEvent::TaskFinished(id, clean)).0.phase is Stopped) <==> m.live.len()
            == 1,
{
    broadcast use vstd::set::axiom_set_empty_len;

    vstd::set::axiom_set_remove_len(m.live, id);
    vstd::set::axiom_set_remove_finite(m.live, id);
    if m.live.remove(id).len() == 0 {
        m.live.remove(id).lemma_len0_is_empty();
    }
}

/// With no live connection, a shutdown observation stops the server in
/// that very step, with a clean report.
pub proof fn lemma_shutdown_with_no_connections_stops_at_once(m: ServerModel, o: RecvOutcome)
    requires
        m.live == Set::<u64>::empty(),
    ensures
        server_step(m, ServerEvent::Shutdown(o)).0.phase is Stopped,
        server_step(m, ServerEvent::Shutdown(o)).1 == ServerAction::ReportStopped,
{
}

} // verus!
