//! A session: the life of one interpreter behind one session id.
//!
//! A session is `Starting` while its interpreter is spawned and probed,
//! `Idle` when it can take a call, `Executing` while one call owns the
//! interpreter, `Faulted` after a fault or a timeout, and `Terminated` after
//! shutdown. Each interpreter that is spawned for the session has its own
//! generation, so what one generation defined is gone in the next.
//!
//! Calls of one session are served in the order in which they arrive. Each
//! call draws a ticket when it arrives; the session serves one ticket at a
//! time, and the next ticket only when the call before it is over.

use crate::portal::execution::RunStatus;
use vstd::prelude::*;

verus! {

/// Where a session is in its life.
#[derive(Debug, Clone, Copy, PartialEq, Eq, Structural)]
pub enum SessionState {
    /// The interpreter is being spawned and probed.
    Starting,
    /// The interpreter is ready for one call.
    Idle,
    /// One call owns the interpreter.
    Executing,
    /// The interpreter is gone; the next call spawns a fresh one.
    Faulted,
    /// Shut down; no further calls are taken.
    Terminated,
}

/// What the engine answers to a call that asks for the interpreter.
#[derive(Debug, Clone, Copy, PartialEq, Eq, Structural)]
pub enum Admission {
    /// The call owns the interpreter of the given generation, as the
    /// execution of the given number.
    Run { execution: u64, generation: u64 },
    /// The host is to spawn and probe a fresh interpreter, of the given
    /// generation, to report how that went, and to ask again.
    Spawn { generation: u64 },
    /// It is not the turn of the call, or the call is running already: wait,
    /// and ask again.
    Busy,
    /// The session is shut down, or the ticket is not one that waits.
    Closed,
    /// The counters of the session cannot go further.
    Exhausted,
}

/// Mathematical value of a [`Session`].
pub struct SessionView {
    /// The session id.
    pub id: Seq<char>,
    /// Where the session is.
    pub state: SessionState,
    /// How many executions were started, over all generations.
    pub executions: u64,
    /// The number of the current interpreter; the first is 1.
    pub generation: u64,
    /// The ticket that the next call draws.
    pub next_ticket: u64,
    /// The ticket whose turn it is.
    pub serving: u64,
}

impl SessionView {
    /// A session as it is made: its first interpreter is starting, and no
    /// call has arrived.
    pub open spec fn fresh(id: Seq<char>) -> SessionView {
        SessionView {
            id,
            state: SessionState::Starting,
            executions: 0,
            generation: 1,
            next_ticket: 0,
            serving: 0,
        }
    }

    /// Tickets are served in the order in which they were drawn: the ticket
    /// that is served was drawn, or is the next to be drawn.
    pub open spec fn wf(self) -> bool {
        self.serving <= self.next_ticket
    }

    /// Whether a call that arrives draws a ticket: the session is not shut
    /// down and has tickets left.
    pub open spec fn takes_calls(self) -> bool {
        self.state != SessionState::Terminated && self.next_ticket < u64::MAX
    }

    /// The session after a call arrived.
    pub open spec fn enqueued(self) -> SessionView {
        if self.takes_calls() {
            SessionView { next_ticket: (self.next_ticket + 1) as u64, ..self }
        } else {
            self
        }
    }

    /// Whether the ticket waits for its turn.
    pub open spec fn waits(self, ticket: u64) -> bool {
        self.serving < ticket < self.next_ticket
    }

    /// Whether it is the turn of the ticket.
    pub open spec fn is_turn_of(self, ticket: u64) -> bool {
        ticket == self.serving && ticket < self.next_ticket
    }

    /// The session after the call with the given ticket asked for the
    /// interpreter.
    pub open spec fn admitted(self, ticket: u64) -> SessionView {
        if !self.is_turn_of(ticket) {
            self
        } else {
            match self.state {
                SessionState::Idle if self.executions < u64::MAX => SessionView {
                    state: SessionState::Executing,
                    executions: (self.executions + 1) as u64,
                    ..self
                },
                SessionState::Faulted if self.generation < u64::MAX => SessionView {
                    state: SessionState::Starting,
                    generation: (self.generation + 1) as u64,
                    ..self
                },
                _ => self,
            }
        }
    }

    /// The answer to the call with the given ticket. Only the call whose
    /// turn it is is told to run or to spawn.
    pub open spec fn admission(self, ticket: u64) -> Admission {
        if self.state == SessionState::Terminated {
            Admission::Closed
        } else if self.waits(ticket) {
            Admission::Busy
        } else if !self.is_turn_of(ticket) {
            Admission::Closed
        } else {
            match self.state {
                SessionState::Idle => if self.executions < u64::MAX {
                    Admission::Run {
                        execution: (self.executions + 1) as u64,
                        generation: self.generation,
                    }
                } else {
                    Admission::Exhausted
                },
                SessionState::Faulted => if self.generation < u64::MAX {
                    Admission::Spawn { generation: (self.generation + 1) as u64 }
                } else {
                    Admission::Exhausted
                },
                SessionState::Starting => Admission::Spawn { generation: self.generation },
                SessionState::Executing => Admission::Busy,
                SessionState::Terminated => Admission::Closed,
            }
        }
    }

    /// The session after the host reported how spawning went. Only a
    /// starting session takes notice.
    pub open spec fn spawned(self, ready: bool) -> SessionView {
        match self.state {
            SessionState::Starting => SessionView {
                state: if ready {
                    SessionState::Idle
                } else {
                    SessionState::Faulted
                },
                ..self
            },
            _ => self,
        }
    }

    /// The session after its execution ended with `status`: the turn passes
    /// to the next ticket. Only an executing session takes notice.
    pub open spec fn finished(self, status: RunStatus) -> SessionView {
        if self.state == SessionState::Executing && self.serving < self.next_ticket {
            SessionView {
                state: if status == RunStatus::Completed {
                    SessionState::Idle
                } else {
                    SessionState::Faulted
                },
                serving: (self.serving + 1) as u64,
                ..self
            }
        } else {
            self
        }
    }

    /// Whether the interpreter is to be terminated when an execution of this
    /// session ends with `status`: always, but after a completed execution.
    pub open spec fn kill_after(self, status: RunStatus) -> bool {
        self.state == SessionState::Executing && self.serving < self.next_ticket && status
            != RunStatus::Completed
    }

    /// Whether the call with the given ticket can give up its turn: it is
    /// its turn, and it does not own the interpreter.
    pub open spec fn can_abandon(self, ticket: u64) -> bool {
        self.is_turn_of(ticket) && self.state != SessionState::Executing
    }

    /// The session after the call with the given ticket gave up its turn.
    pub open spec fn abandoned(self, ticket: u64) -> SessionView {
        if self.can_abandon(ticket) {
            SessionView { serving: (self.serving + 1) as u64, ..self }
        } else {
            self
        }
    }

    /// Whether the session has an interpreter, running or being spawned.
    pub open spec fn has_process(self) -> bool {
        self.state == SessionState::Starting || self.state == SessionState::Idle || self.state
            == SessionState::Executing
    }

    /// The session after shutdown.
    pub open spec fn terminated(self) -> SessionView {
        SessionView { state: SessionState::Terminated, ..self }
    }

    /// Whether a call for a terminated session starts it over: it is
    /// terminated and has a generation left.
    pub open spec fn starts_over(self) -> bool {
        self.state == SessionState::Terminated && self.generation < u64::MAX
    }

    /// The session that takes the place of a terminated one: it is starting
    /// its next interpreter, and the tickets that were drawn before take no
    /// part any more.
    pub open spec fn restarted(self) -> SessionView {
        if self.starts_over() {
            SessionView {
                state: SessionState::Starting,
                generation: (self.generation + 1) as u64,
                serving: self.next_ticket,
                ..self
            }
        } else {
            self
        }
    }
}

/// State persists between calls that complete. After a completed execution
/// the call with the next ticket runs at once, on the interpreter of the same
/// generation, so it sees what the call before it defined.
pub proof fn lemma_state_persists(s: SessionView)
    requires
        s.state == SessionState::Executing,
        s.executions < u64::MAX,
        s.serving + 1 < s.next_ticket,
    ensures
        s.finished(RunStatus::Completed).admission((s.serving + 1) as u64) == (Admission::Run {
            execution: (s.executions + 1) as u64,
            generation: s.generation,
        }),
        s.finished(RunStatus::Completed).admitted((s.serving + 1) as u64).generation
            == s.generation,
        !s.kill_after(RunStatus::Completed),
{
}

/// After a timeout or a fault the session starts afresh. The interpreter is
/// terminated, the call with the next ticket is told to spawn a fresh one,
/// and once that is ready it runs on a later generation than the one that
/// failed: nothing that was defined before the failure is left.
pub proof fn lemma_fresh_after_failure(s: SessionView, status: RunStatus)
    requires
        s.state == SessionState::Executing,
        status != RunStatus::Completed,
        s.generation < u64::MAX,
        s.executions < u64::MAX,
        s.serving + 1 < s.next_ticket,
    ensures
        s.kill_after(status),
        s.finished(status).state == SessionState::Faulted,
        s.finished(status).admission((s.serving + 1) as u64) == (Admission::Spawn {
            generation: (s.generation + 1) as u64,
        }),
        s.finished(status).admitted((s.serving + 1) as u64).spawned(true).admission(
            (s.serving + 1) as u64,
        ) == (Admission::Run {
            execution: (s.executions + 1) as u64,
            generation: (s.generation + 1) as u64,
        }),
        s.finished(status).admitted((s.serving + 1) as u64).spawned(true).admitted(
            (s.serving + 1) as u64,
        ).generation > s.generation,
{
}

/// At most one call owns the interpreter. While a session is executing,
/// every call that asks is told to wait or is turned away, and the session
/// stays as it is.
pub proof fn lemma_one_call_at_a_time(s: SessionView, ticket: u64)
    requires
        s.state == SessionState::Executing,
    ensures
        s.admission(ticket) == Admission::Busy || s.admission(ticket) == Admission::Closed,
        s.admitted(ticket) == s,
{
}

/// First come, first served. A call is told to run or to spawn only when it
/// is its turn, and then every call that arrived before it is over: a ticket
/// below the one that is served is turned away, never served again.
pub proof fn lemma_first_come_first_served(s: SessionView, ticket: u64, earlier: u64)
    requires
        s.admission(ticket) is Run || s.admission(ticket) is Spawn,
        earlier < ticket,
    ensures
        ticket == s.serving,
        s.admission(earlier) == Admission::Closed,
        s.admitted(earlier) == s,
{
}

/// The turn never goes back, and neither do the counters, whatever happens
/// to a session.
pub proof fn lemma_session_only_advances(
    s: SessionView,
    ticket: u64,
    ready: bool,
    status: RunStatus,
)
    requires
        s.wf(),
    ensures
        s.enqueued().wf() && s.enqueued().serving == s.serving && s.enqueued().next_ticket
            >= s.next_ticket,
        s.admitted(ticket).wf() && s.admitted(ticket).serving == s.serving && s.admitted(
            ticket,
        ).executions >= s.executions && s.admitted(ticket).generation >= s.generation,
        s.spawned(ready).wf() && s.spawned(ready).serving == s.serving,
        s.finished(status).wf() && s.finished(status).serving >= s.serving,
        s.abandoned(ticket).wf() && s.abandoned(ticket).serving >= s.serving,
        s.terminated().wf() && s.terminated().serving == s.serving,
        s.restarted().wf() && s.restarted().serving >= s.serving && s.restarted().generation
            >= s.generation,
{
}

/// One session.
#[derive(Debug, Clone, PartialEq, Eq)]
pub struct Session {
    id: String,
    state: SessionState,
    executions: u64,
    generation: u64,
    next_ticket: u64,
    serving: u64,
}

impl View for Session {
    type V = SessionView;

    closed spec fn view(&self) -> SessionView {
        SessionView {
            id: self.id@,
            state: self.state,
            executions: self.executions,
            generation: self.generation,
            next_ticket: self.next_ticket,
            serving: self.serving,
        }
    }
}

impl DeepView for Session {
    type V = SessionView;

    open spec fn deep_view(&self) -> SessionView {
        self@
    }
}

impl Session {
    /// Makes the session of the given id; its first interpreter is starting.
    pub fn new(id: String) -> (s: Session)
        ensures
            s@ == SessionView::fresh(id@),
    {
        Session {
            id,
            state: SessionState::Starting,
            executions: 0,
            generation: 1,
            next_ticket: 0,
            serving: 0,
        }
    }

    /// Returns the session id.
    pub fn id(&self) -> (id: &str)
        ensures
            id@ == self@.id,
    {
        self.id.as_str()
    }

    /// Returns where the session is.
    pub fn state(&self) -> (s: SessionState)
        ensures
            s == self@.state,
    {
        self.state
    }

    /// Returns how many executions were started.
    pub fn executions(&self) -> (n: u64)
        ensures
            n == self@.executions,
    {
        self.executions
    }

    /// Returns the number of the current interpreter.
    pub fn generation(&self) -> (n: u64)
        ensures
            n == self@.generation,
    {
        self.generation
    }

    /// Returns the ticket whose turn it is.
    pub fn serving(&self) -> (t: u64)
        ensures
            t == self@.serving,
    {
        self.serving
    }

    /// Returns how many calls wait or run: the tickets that were drawn and
    /// are not over.
    pub fn pending(&self) -> (n: u64)
        requires
            self@.wf(),
        ensures
            n == self@.next_ticket - self@.serving,
    {
        self.next_ticket - self.serving
    }

    /// Takes notice of a call that arrives, and returns its ticket: the next
    /// one in the order of arrival. A session that is shut down or has no
    /// ticket left takes no call and stays as it is.
    pub fn enqueue(&mut self) -> (ticket: Option<u64>)
        ensures
            final(self)@ == old(self)@.enqueued(),
            ticket == (if old(self)@.takes_calls() {
                Some(old(self)@.next_ticket)
            } else {
                None
            }),
    {
        match self.state {
            SessionState::Terminated => None,
            _ => {
                if self.next_ticket < u64::MAX {
                    let ticket = self.next_ticket;
                    self.next_ticket = ticket + 1;
                    Some(ticket)
                } else {
                    None
                }
            },
        }
    }

    /// Answers the call with the given ticket. A call whose turn has not
    /// come waits. The call whose turn it is owns an idle interpreter, as the
    /// next execution; it is told to spawn where the session is faulted or
    /// starting; it waits where it runs already. A session that is shut down
    /// and a ticket that does not wait are turned away.
    pub fn acquire(&mut self, ticket: u64) -> (a: Admission)
        ensures
            a == old(self)@.admission(ticket),
            final(self)@ == old(self)@.admitted(ticket),
    {
        if ticket != self.serving || ticket >= self.next_ticket {
            return match self.state {
                SessionState::Terminated => Admission::Closed,
                _ => {
                    if self.serving < ticket && ticket < self.next_ticket {
                        Admission::Busy
                    } else {
                        Admission::Closed
                    }
                },
            };
        }
        match self.state {
            SessionState::Idle => {
                if self.executions < u64::MAX {
                    self.executions = self.executions + 1;
                    self.state = SessionState::Executing;
                    Admission::Run { execution: self.executions, generation: self.generation }
                } else {
                    Admission::Exhausted
                }
            },
            SessionState::Faulted => {
                if self.generation < u64::MAX {
                    self.generation = self.generation + 1;
                    self.state = SessionState::Starting;
                    Admission::Spawn { generation: self.generation }
                } else {
                    Admission::Exhausted
                }
            },
            SessionState::Starting => Admission::Spawn { generation: self.generation },
            SessionState::Executing => Admission::Busy,
            SessionState::Terminated => Admission::Closed,
        }
    }

    /// Takes notice of how spawning went: a starting session becomes idle if
    /// the interpreter answered the probe, faulted if not.
    pub fn spawn_finished(&mut self, ready: bool)
        ensures
            final(self)@ == old(self)@.spawned(ready),
    {
        match self.state {
            SessionState::Starting => {
                if ready {
                    self.state = SessionState::Idle;
                } else {
                    self.state = SessionState::Faulted;
                }
            },
            _ => {},
        }
    }

    /// Takes notice of the end of the execution: the session becomes idle
    /// after a completed one and faulted after any other, and the turn passes
    /// on. Returns whether the host is to terminate the interpreter.
    pub fn finish(&mut self, status: RunStatus) -> (kill: bool)
        ensures
            final(self)@ == old(self)@.finished(status),
            kill == old(self)@.kill_after(status),
    {
        match self.state {
            SessionState::Executing => {
                if self.serving < self.next_ticket {
                    self.serving = self.serving + 1;
                    match status {
                        RunStatus::Completed => {
                            self.state = SessionState::Idle;
                            false
                        },
                        _ => {
                            self.state = SessionState::Faulted;
                            true
                        },
                    }
                } else {
                    false
                }
            },
            _ => false,
        }
    }

    /// Gives up the turn of a call that does not run: after a spawn that
    /// failed, or when the caller went away. Returns whether the turn passed
    /// on; it does only where it was the turn of the ticket and the call does
    /// not own the interpreter.
    pub fn abandon(&mut self, ticket: u64) -> (passed: bool)
        ensures
            final(self)@ == old(self)@.abandoned(ticket),
            passed == old(self)@.can_abandon(ticket),
    {
        if ticket == self.serving && ticket < self.next_ticket {
            match self.state {
                SessionState::Executing => false,
                _ => {
                    self.serving = self.serving + 1;
                    true
                },
            }
        } else {
            false
        }
    }

    /// Shuts the session down. Returns whether there was an interpreter for
    /// the host to terminate.
    pub fn terminate(&mut self) -> (kill: bool)
        ensures
            final(self)@ == old(self)@.terminated(),
            kill == old(self)@.has_process(),
    {
        let kill = match self.state {
            SessionState::Starting => true,
            SessionState::Idle => true,
            SessionState::Executing => true,
            _ => false,
        };
        self.state = SessionState::Terminated;
        kill
    }

    /// Starts a terminated session over, with its next interpreter. Returns
    /// whether it did; a session that is not terminated, or whose generations
    /// are used up, is left as it is.
    pub fn restart(&mut self) -> (restarted: bool)
        ensures
            final(self)@ == old(self)@.restarted(),
            restarted == old(self)@.starts_over(),
    {
        match self.state {
            SessionState::Terminated => {
                if self.generation < u64::MAX {
                    self.generation = self.generation + 1;
                    self.state = SessionState::Starting;
                    self.serving = self.next_ticket;
                    true
                } else {
                    false
                }
            },
            _ => false,
        }
    }
}

/// Says whether the host is to try once more to terminate an interpreter
/// after `failed_attempts` attempts failed: once, after the first failure.
/// After the second the session is left faulted and the next call spawns.
pub fn retry_cleanup(failed_attempts: u64) -> (retry: bool)
    ensures
        retry == (failed_attempts == 1),
{
    failed_attempts == 1
}

} // verus!
