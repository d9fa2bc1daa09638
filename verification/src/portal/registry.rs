//! The sessions of one engine, by session id.
//!
//! The registry holds at most one session for each id. A call for an id that
//! is not known makes its session; a call for a known id reaches the session
//! that is there, and no other session is touched.

use crate::portal::execution::RunStatus;
use crate::portal::session::{
    lemma_session_only_advances, Admission, Session, SessionState, SessionView,
};
use crate::text::text_eq;
use vstd::prelude::*;

verus! {

/// Whether `sessions` holds a session of the given id.
pub open spec fn holds(sessions: Seq<SessionView>, id: Seq<char>) -> bool {
    exists|i: int| 0 <= i < sessions.len() && #[trigger] sessions[i].id == id
}

/// The place of the session of the given id, where there is one.
pub open spec fn position(sessions: Seq<SessionView>, id: Seq<char>) -> int {
    choose|i: int| 0 <= i < sessions.len() && #[trigger] sessions[i].id == id
}

/// No two sessions have the same id.
pub open spec fn distinct_ids(sessions: Seq<SessionView>) -> bool {
    forall|i: int, j: int|
        0 <= i < j < sessions.len() ==> (#[trigger] sessions[i]).id != (#[trigger] sessions[j]).id
}

/// Every session serves its tickets in order.
pub open spec fn all_in_order(sessions: Seq<SessionView>) -> bool {
    forall|i: int| 0 <= i < sessions.len() ==> (#[trigger] sessions[i]).wf()
}

/// The sessions as a registry holds them: one for each id, each serving its
/// tickets in order.
pub open spec fn well_formed(sessions: Seq<SessionView>) -> bool {
    distinct_ids(sessions) && all_in_order(sessions)
}

/// The session of `id` as a call that arrives finds it: made if the id is
/// not known, started over if it is terminated, else as it is.
pub open spec fn found(sessions: Seq<SessionView>, id: Seq<char>) -> SessionView {
    if holds(sessions, id) {
        sessions[position(sessions, id)].restarted()
    } else {
        SessionView::fresh(id)
    }
}

/// The sessions with the session of `id` replaced by `s`, or with `s` added
/// where the id is not known.
pub open spec fn with_session(sessions: Seq<SessionView>, id: Seq<char>, s: SessionView) -> Seq<
    SessionView,
> {
    if holds(sessions, id) {
        sessions.update(position(sessions, id), s)
    } else {
        sessions.push(s)
    }
}

/// The sessions after a call for `id` arrived.
pub open spec fn arrived(sessions: Seq<SessionView>, id: Seq<char>) -> Seq<SessionView> {
    with_session(sessions, id, found(sessions, id).enqueued())
}

/// The ticket of a call for `id` that arrives, if the session takes it.
pub open spec fn ticket_for(sessions: Seq<SessionView>, id: Seq<char>) -> Option<u64> {
    if found(sessions, id).takes_calls() {
        Some(found(sessions, id).next_ticket)
    } else {
        None
    }
}

/// The sessions after the session of `id` changed as `change` says; nothing
/// changes where the id is not known.
pub open spec fn changed(
    sessions: Seq<SessionView>,
    id: Seq<char>,
    change: spec_fn(SessionView) -> SessionView,
) -> Seq<SessionView> {
    if holds(sessions, id) {
        sessions.update(position(sessions, id), change(sessions[position(sessions, id)]))
    } else {
        sessions
    }
}

/// The sessions after the call for `id` with the given ticket asked for the
/// interpreter.
pub open spec fn acquired(sessions: Seq<SessionView>, id: Seq<char>, ticket: u64) -> Seq<
    SessionView,
> {
    changed(sessions, id, |s: SessionView| s.admitted(ticket))
}

/// The answer to the call for `id` with the given ticket. A call for an id
/// that is not known is turned away.
pub open spec fn admission(sessions: Seq<SessionView>, id: Seq<char>, ticket: u64) -> Admission {
    if holds(sessions, id) {
        sessions[position(sessions, id)].admission(ticket)
    } else {
        Admission::Closed
    }
}

/// The sessions after the host reported how spawning went for `id`.
pub open spec fn spawned(sessions: Seq<SessionView>, id: Seq<char>, ready: bool) -> Seq<
    SessionView,
> {
    changed(sessions, id, |s: SessionView| s.spawned(ready))
}

/// The sessions after the execution of `id` ended with `status`.
pub open spec fn finished(sessions: Seq<SessionView>, id: Seq<char>, status: RunStatus) -> Seq<
    SessionView,
> {
    changed(sessions, id, |s: SessionView| s.finished(status))
}

/// Whether the interpreter of `id` is to be terminated when its execution
/// ends with `status`.
pub open spec fn kill_after(sessions: Seq<SessionView>, id: Seq<char>, status: RunStatus) -> bool {
    holds(sessions, id) && sessions[position(sessions, id)].kill_after(status)
}

/// The sessions after the call for `id` with the given ticket gave up its
/// turn.
pub open spec fn abandoned(sessions: Seq<SessionView>, id: Seq<char>, ticket: u64) -> Seq<
    SessionView,
> {
    changed(sessions, id, |s: SessionView| s.abandoned(ticket))
}

/// Whether the call for `id` with the given ticket can give up its turn.
pub open spec fn can_abandon(sessions: Seq<SessionView>, id: Seq<char>, ticket: u64) -> bool {
    holds(sessions, id) && sessions[position(sessions, id)].can_abandon(ticket)
}

/// The sessions after shutdown: each one terminated.
pub open spec fn all_terminated(sessions: Seq<SessionView>) -> Seq<SessionView> {
    sessions.map_values(|s: SessionView| s.terminated())
}

/// The ids of the sessions that have an interpreter, in their order.
pub open spec fn live_ids(sessions: Seq<SessionView>) -> Seq<Seq<char>>
    decreases sessions.len(),
{
    if sessions.len() == 0 {
        Seq::empty()
    } else if sessions.last().has_process() {
        live_ids(sessions.drop_last()).push(sessions.last().id)
    } else {
        live_ids(sessions.drop_last())
    }
}

/// Where ids are distinct, the session of an id stands at one place only.
pub proof fn lemma_position_is_unique(sessions: Seq<SessionView>, i: int)
    requires
        distinct_ids(sessions),
        0 <= i < sessions.len(),
    ensures
        holds(sessions, sessions[i].id),
        position(sessions, sessions[i].id) == i,
{
    let id = sessions[i].id;
    let p = position(sessions, id);
    assert(0 <= p < sessions.len() && sessions[p].id == id);
    if p < i {
        assert(sessions[p].id != sessions[i].id);
    } else if i < p {
        assert(sessions[i].id != sessions[p].id);
    }
}

/// Putting a session of the id `id` in the place of that id, or adding it
/// where the id is not known, leaves one session for each id, and every
/// other session where and as it was.
pub proof fn lemma_with_session(sessions: Seq<SessionView>, id: Seq<char>, s: SessionView)
    requires
        well_formed(sessions),
        s.id == id,
        s.wf(),
    ensures
        well_formed(with_session(sessions, id, s)),
        holds(with_session(sessions, id, s), id),
        with_session(sessions, id, s)[position(with_session(sessions, id, s), id)] == s,
        holds(sessions, id) ==> position(with_session(sessions, id, s), id) == position(
            sessions,
            id,
        ),
        !holds(sessions, id) ==> position(with_session(sessions, id, s), id) == sessions.len(),
        forall|k: int|
            0 <= k < sessions.len() && sessions[k].id != id ==> #[trigger] with_session(
                sessions,
                id,
                s,
            )[k] == sessions[k],
{
    let after = with_session(sessions, id, s);
    if holds(sessions, id) {
        let i = position(sessions, id);
        assert(0 <= i < sessions.len() && sessions[i].id == id);
        assert forall|a: int, b: int| 0 <= a < b < after.len() implies (#[trigger] after[a]).id != (
        #[trigger] after[b]).id by {
            assert(after[a].id == sessions[a].id);
            assert(after[b].id == sessions[b].id);
        }
        assert forall|k: int| 0 <= k < after.len() implies (#[trigger] after[k]).wf() by {
            if k != i {
                assert(after[k] == sessions[k]);
            }
        }
        assert(after[i].id == id);
        lemma_position_is_unique(after, i);
    } else {
        let n = sessions.len() as int;
        assert forall|a: int, b: int| 0 <= a < b < after.len() implies (#[trigger] after[a]).id != (
        #[trigger] after[b]).id by {
            if b < n {
                assert(after[a].id == sessions[a].id);
                assert(after[b].id == sessions[b].id);
            } else {
                assert(after[a] == sessions[a]);
                if sessions[a].id == id {
                    assert(holds(sessions, id));
                }
            }
        }
        assert forall|k: int| 0 <= k < after.len() implies (#[trigger] after[k]).wf() by {
            if k < n {
                assert(after[k] == sessions[k]);
            }
        }
        assert(after[n].id == id);
        lemma_position_is_unique(after, n);
    }
}

/// A change of the session of one id that keeps the id leaves one session
/// for each id, and every other session where and as it was.
pub proof fn lemma_changed(
    sessions: Seq<SessionView>,
    id: Seq<char>,
    change: spec_fn(SessionView) -> SessionView,
)
    requires
        well_formed(sessions),
        forall|s: SessionView| #[trigger] change(s).id == s.id,
        forall|s: SessionView| s.wf() ==> #[trigger] change(s).wf(),
    ensures
        well_formed(changed(sessions, id, change)),
        changed(sessions, id, change).len() == sessions.len(),
        holds(changed(sessions, id, change), id) == holds(sessions, id),
        holds(sessions, id) ==> position(changed(sessions, id, change), id) == position(
            sessions,
            id,
        ) && changed(sessions, id, change)[position(sessions, id)] == change(
            sessions[position(sessions, id)],
        ),
        forall|k: int|
            0 <= k < sessions.len() && sessions[k].id != id ==> #[trigger] changed(
                sessions,
                id,
                change,
            )[k] == sessions[k],
{
    if holds(sessions, id) {
        let i = position(sessions, id);
        assert(0 <= i < sessions.len() && sessions[i].id == id);
        let s = change(sessions[i]);
        assert(sessions[i].wf());
        lemma_with_session(sessions, id, s);
        assert(changed(sessions, id, change) == with_session(sessions, id, s));
    }
}

/// Sessions are isolated from one another. Whatever happens for one id, the
/// session of every other id stays where and as it was.
pub proof fn lemma_other_sessions_untouched(
    sessions: Seq<SessionView>,
    id: Seq<char>,
    other: Seq<char>,
    ticket: u64,
    ready: bool,
    status: RunStatus,
)
    requires
        well_formed(sessions),
        holds(sessions, other),
        other != id,
    ensures
        ({
            let k = position(sessions, other);
            &&& arrived(sessions, id)[k] == sessions[k]
            &&& acquired(sessions, id, ticket)[k] == sessions[k]
            &&& spawned(sessions, id, ready)[k] == sessions[k]
            &&& finished(sessions, id, status)[k] == sessions[k]
            &&& abandoned(sessions, id, ticket)[k] == sessions[k]
        }),
{
    let k = position(sessions, other);
    assert(0 <= k < sessions.len() && sessions[k].id == other);
    if holds(sessions, id) {
        let i = position(sessions, id);
        assert(0 <= i < sessions.len() && sessions[i].id == id);
        assert(i != k);
    }
}

/// State persists between two calls of one session. Where the execution of
/// a session completes and another call waits, that call runs at once and on
/// the interpreter of the same generation: it sees what the first call
/// defined.
pub proof fn lemma_session_state_persists(sessions: Seq<SessionView>, id: Seq<char>)
    requires
        well_formed(sessions),
        holds(sessions, id),
        sessions[position(sessions, id)].state == SessionState::Executing,
        sessions[position(sessions, id)].executions < u64::MAX,
        sessions[position(sessions, id)].serving + 1 < sessions[position(sessions, id)].next_ticket,
    ensures
        !kill_after(sessions, id, RunStatus::Completed),
        admission(
            finished(sessions, id, RunStatus::Completed),
            id,
            (sessions[position(sessions, id)].serving + 1) as u64,
        ) == (Admission::Run {
            execution: (sessions[position(sessions, id)].executions + 1) as u64,
            generation: sessions[position(sessions, id)].generation,
        }),
{
    let i = position(sessions, id);
    assert(0 <= i < sessions.len() && sessions[i].id == id);
    lemma_with_session(sessions, id, sessions[i].finished(RunStatus::Completed));
}

/// After a timeout or a fault a session starts afresh. The interpreter is
/// terminated, and the call that waits next is told to spawn a fresh
/// interpreter, of the next generation; once that is ready the call runs on
/// that generation, where nothing that was defined before is left.
pub proof fn lemma_session_fresh_after_failure(
    sessions: Seq<SessionView>,
    id: Seq<char>,
    status: RunStatus,
)
    requires
        well_formed(sessions),
        holds(sessions, id),
        sessions[position(sessions, id)].state == SessionState::Executing,
        sessions[position(sessions, id)].executions < u64::MAX,
        sessions[position(sessions, id)].generation < u64::MAX,
        sessions[position(sessions, id)].serving + 1 < sessions[position(sessions, id)].next_ticket,
        status != RunStatus::Completed,
    ensures
        ({
            let s = sessions[position(sessions, id)];
            let next = (s.serving + 1) as u64;
            let after_run = finished(sessions, id, status);
            let after_spawn = spawned(acquired(after_run, id, next), id, true);
            &&& kill_after(sessions, id, status)
            &&& admission(after_run, id, next) == (Admission::Spawn {
                generation: (s.generation + 1) as u64,
            })
            &&& admission(after_spawn, id, next) == (Admission::Run {
                execution: (s.executions + 1) as u64,
                generation: (s.generation + 1) as u64,
            })
        }),
{
    let i = position(sessions, id);
    let s0 = sessions[i];
    let next = (s0.serving + 1) as u64;
    assert(0 <= i < sessions.len() && s0.id == id);
    assert(s0.wf());
    let s1 = s0.finished(status);
    let after_run = finished(sessions, id, status);
    lemma_with_session(sessions, id, s1);
    assert(after_run == with_session(sessions, id, s1));
    let s2 = s1.admitted(next);
    let after_call = acquired(after_run, id, next);
    lemma_with_session(after_run, id, s2);
    assert(after_call == with_session(after_run, id, s2));
    let s3 = s2.spawned(true);
    lemma_with_session(after_call, id, s3);
    assert(spawned(after_call, id, true) == with_session(after_call, id, s3));
}

/// The sessions of one engine.
#[derive(Debug, Clone, PartialEq, Eq)]
pub struct SessionRegistry {
    sessions: Vec<Session>,
}

impl View for SessionRegistry {
    type V = Seq<SessionView>;

    closed spec fn view(&self) -> Seq<SessionView> {
        self.sessions.deep_view()
    }
}

impl SessionRegistry {
    /// The registry holds one session for each id, and each session serves
    /// its tickets in order.
    pub open spec fn wf(&self) -> bool {
        well_formed(self@)
    }

    /// Makes a registry without sessions.
    pub fn new() -> (r: SessionRegistry)
        ensures
            r@ == Seq::<SessionView>::empty(),
            r.wf(),
    {
        let r = SessionRegistry { sessions: Vec::new() };
        assert(r.sessions.deep_view() =~= Seq::empty());
        r
    }

    /// Returns the number of sessions.
    pub fn len(&self) -> (n: usize)
        ensures
            n == self@.len(),
    {
        self.sessions.len()
    }

    /// Returns the place of the session of the given id, if there is one.
    pub fn find(&self, id: &str) -> (r: Option<usize>)
        requires
            self.wf(),
        ensures
            match r {
                Some(i) => holds(self@, id@) && i == position(self@, id@),
                None => !holds(self@, id@),
            },
    {
        let mut i: usize = 0;
        while i < self.sessions.len()
            invariant
                i <= self.sessions.len(),
                self.wf(),
                forall|k: int| 0 <= k < i ==> (#[trigger] self@[k]).id != id@,
            decreases self.sessions.len() - i,
        {
            if text_eq(self.sessions[i].id(), id) {
                proof {
                    lemma_position_is_unique(self@, i as int);
                }
                return Some(i);
            }
            i += 1;
        }
        None
    }

    /// Returns the session at the given place.
    pub fn get(&self, i: usize) -> (s: &Session)
        requires
            i < self@.len(),
        ensures
            s@ == self@[i as int],
    {
        &self.sessions[i]
    }

    /// Takes notice of a call for `id` that arrives, and returns its ticket.
    /// An id that is not known has its session made; a terminated session
    /// starts over with its next interpreter. No ticket is given where the
    /// session has none left. No other session changes.
    pub fn enqueue(&mut self, id: &str) -> (ticket: Option<u64>)
        requires
            old(self).wf(),
        ensures
            final(self).wf(),
            final(self)@ == arrived(old(self)@, id@),
            ticket == ticket_for(old(self)@, id@),
    {
        let ghost before = self@;
        proof {
            if holds(before, id@) {
                let i = position(before, id@);
                assert(0 <= i < before.len() && before[i].id == id@);
                assert(before[i].wf());
            }
            lemma_session_only_advances(found(before, id@), 0, true, RunStatus::Completed);
            lemma_session_only_advances(
                if holds(before, id@) {
                    before[position(before, id@)]
                } else {
                    SessionView::fresh(id@)
                },
                0,
                true,
                RunStatus::Completed,
            );
            lemma_with_session(before, id@, found(before, id@).enqueued());
        }
        match self.find(id) {
            Some(i) => {
                self.sessions[i].restart();
                let ticket = self.sessions[i].enqueue();
                assert(self@ =~= arrived(before, id@));
                ticket
            },
            None => {
                let mut session = Session::new(id.to_owned());
                let ticket = session.enqueue();
                self.sessions.push(session);
                assert(self@ =~= arrived(before, id@));
                ticket
            },
        }
    }

    /// Answers the call for `id` with the given ticket, as the session does.
    /// A call for an id that is not known is turned away. No other session
    /// changes.
    pub fn acquire(&mut self, id: &str, ticket: u64) -> (a: Admission)
        requires
            old(self).wf(),
        ensures
            final(self).wf(),
            final(self)@ == acquired(old(self)@, id@, ticket),
            a == admission(old(self)@, id@, ticket),
    {
        let ghost before = self@;
        proof {
            assert forall|s: SessionView| s.wf() implies (#[trigger] s.admitted(ticket)).wf() by {
                lemma_session_only_advances(s, ticket, true, RunStatus::Completed);
            }
            lemma_changed(before, id@, |s: SessionView| s.admitted(ticket));
        }
        match self.find(id) {
            Some(i) => {
                let a = self.sessions[i].acquire(ticket);
                assert(self@ =~= acquired(before, id@, ticket));
                a
            },
            None => Admission::Closed,
        }
    }

    /// Takes notice of how spawning went for `id`. No other session changes,
    /// and nothing changes for an id that is not known.
    pub fn spawn_finished(&mut self, id: &str, ready: bool)
        requires
            old(self).wf(),
        ensures
            final(self).wf(),
            final(self)@ == spawned(old(self)@, id@, ready),
    {
        let ghost before = self@;
        proof {
            lemma_changed(before, id@, |s: SessionView| s.spawned(ready));
        }
        match self.find(id) {
            Some(i) => {
                self.sessions[i].spawn_finished(ready);
                assert(self@ =~= spawned(before, id@, ready));
            },
            None => {},
        }
    }

    /// Takes notice of the end of the execution of `id`, and returns whether
    /// the host is to terminate the interpreter. No other session changes,
    /// and nothing changes for an id that is not known.
    pub fn finish(&mut self, id: &str, status: RunStatus) -> (kill: bool)
        requires
            old(self).wf(),
        ensures
            final(self).wf(),
            final(self)@ == finished(old(self)@, id@, status),
            kill == kill_after(old(self)@, id@, status),
    {
        let ghost before = self@;
        proof {
            lemma_changed(before, id@, |s: SessionView| s.finished(status));
        }
        match self.find(id) {
            Some(i) => {
                let kill = self.sessions[i].finish(status);
                assert(self@ =~= finished(before, id@, status));
                kill
            },
            None => false,
        }
    }

    /// Gives up the turn of the call for `id` with the given ticket, and
    /// returns whether the turn passed on. No other session changes, and
    /// nothing changes for an id that is not known.
    pub fn abandon(&mut self, id: &str, ticket: u64) -> (passed: bool)
        requires
            old(self).wf(),
        ensures
            final(self).wf(),
            final(self)@ == abandoned(old(self)@, id@, ticket),
            passed == can_abandon(old(self)@, id@, ticket),
    {
        let ghost before = self@;
        proof {
            lemma_changed(before, id@, |s: SessionView| s.abandoned(ticket));
        }
        match self.find(id) {
            Some(i) => {
                let passed = self.sessions[i].abandon(ticket);
                assert(self@ =~= abandoned(before, id@, ticket));
                passed
            },
            None => false,
        }
    }

    /// Shuts every session down, and returns the ids of those that had an
    /// interpreter for the host to terminate, in the order of the registry.
    pub fn terminate_all(&mut self) -> (ids: Vec<String>)
        requires
            old(self).wf(),
        ensures
            final(self).wf(),
            final(self)@ == all_terminated(old(self)@),
            ids.deep_view() == live_ids(old(self)@),
    {
        let ghost before = self@;
        let mut ids: Vec<String> = Vec::new();
        let mut i: usize = 0;
        assert(ids.deep_view() =~= live_ids(before.take(0)));
        while i < self.sessions.len()
            invariant
                i <= self.sessions.len(),
                self@.len() == before.len(),
                forall|k: int| 0 <= k < i ==> #[trigger] self@[k] == before[k].terminated(),
                forall|k: int| i <= k < before.len() ==> #[trigger] self@[k] == before[k],
                ids.deep_view() == live_ids(before.take(i as int)),
            decreases self.sessions.len() - i,
        {
            let ghost seen = ids.deep_view();
            let ghost current = self@;
            assert(current[i as int] == before[i as int]);
            assert(current[i as int] == self.sessions@[i as int]@);
            let kill = self.sessions[i].terminate();
            assert(self.sessions@[i as int]@ == before[i as int].terminated());
            assert(self@[i as int] == self.sessions@[i as int]@);
            if kill {
                let id = self.sessions[i].id().to_owned();
                assert(id@ == before[i as int].id);
                ids.push(id);
                assert(ids.deep_view() =~= seen.push(id@));
            }
            assert(self@.len() == before.len());
            assert forall|k: int| 0 <= k < i + 1 implies #[trigger] self@[k]
                == before[k].terminated() by {
                if k < i {
                    assert(self@[k] == current[k]);
                }
            }
            assert forall|k: int| i + 1 <= k < before.len() implies #[trigger] self@[k]
                == before[k] by {
                assert(self@[k] == current[k]);
            }
            assert(before.take(i + 1).drop_last() =~= before.take(i as int));
            assert(before.take(i + 1).last() == before[i as int]);
            i += 1;
        }
        assert(before.take(i as int) =~= before);
        assert(self@ =~= all_terminated(before));
        assert forall|a: int, b: int| 0 <= a < b < self@.len() implies (#[trigger] self@[a]).id != (
        #[trigger] self@[b]).id by {
            assert(self@[a].id == before[a].id);
            assert(self@[b].id == before[b].id);
        }
        assert forall|k: int| 0 <= k < self@.len() implies (#[trigger] self@[k]).wf() by {
            assert(before[k].wf());
        }
        ids
    }
}

} // verus!
