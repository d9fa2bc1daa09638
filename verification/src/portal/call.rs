//! One call of `eval`, from its arrival to its result.
//!
//! The host reports what happened; the engine says what to do next. A call
//! arrives and draws its ticket. The host asks for it; the engine answers to
//! wait, to spawn an interpreter, or to write the payload. The host reports
//! how spawning went and what the interpreter's process does, and in the end
//! the engine hands out the result and says whether the interpreter is to be
//! terminated. The host decides nothing: it waits, launches, writes, reads
//! and keeps time.

use crate::portal::engine::{EngineHandle, HandleView, Ticket};
use crate::portal::error::{ExecutionError, ExecutionErrorView};
use crate::portal::execution::{
    deadline_for, Execution, ExecutionView, ProcessEvent, ProcessEventView, RunStatus,
};
use crate::portal::language::Language;
use crate::portal::output::{OutputLine, OutputLineView};
use crate::portal::payload::ExecutionRequest;
use crate::portal::sentinel::{payload, payload_text, token_text, Sentinel};
use crate::portal::registry::{
    acquired, holds, lemma_changed, lemma_other_sessions_untouched, lemma_position_is_unique,
    lemma_session_fresh_after_failure, lemma_session_state_persists, position, spawned,
    well_formed,
};
use crate::portal::session::{lemma_session_only_advances, Admission, SessionState, SessionView};
use vstd::prelude::*;
use vstd::string::*;

verus! {

/// What the host reports to a call.
#[derive(Debug, Clone, PartialEq, Eq)]
pub enum HostEvent {
    /// The host asks what the call is to do: at its arrival, and whenever
    /// another call of the handle is over.
    Ask,
    /// The host spawned an interpreter as it was told; it answered the probe,
    /// or it did not.
    Spawned(bool),
    /// The interpreter's process gave rise to an event.
    Process(ProcessEvent),
    /// The payload could not be written: the interpreter is gone.
    WriteFailed,
}

/// Mathematical value of a [`HostEvent`].
pub enum HostEventView {
    Ask,
    Spawned(bool),
    Process(ProcessEventView),
    WriteFailed,
}

impl View for HostEvent {
    type V = HostEventView;

    open spec fn view(&self) -> HostEventView {
        match self {
            HostEvent::Ask => HostEventView::Ask,
            HostEvent::Spawned(ready) => HostEventView::Spawned(*ready),
            HostEvent::Process(e) => HostEventView::Process(e@),
            HostEvent::WriteFailed => HostEventView::WriteFailed,
        }
    }
}

/// What the host is to do next for a call.
#[derive(Debug, PartialEq, Eq)]
pub enum Instruction {
    /// Wait until another call of the handle is over, then ask again.
    Wait,
    /// Spawn and probe a fresh interpreter for the session, of the given
    /// generation, and report how that went.
    Spawn { generation: u64 },
    /// Write the payload to the interpreter of the session, then report the
    /// events of its process.
    Write { payload: String },
    /// Go on reporting the events of the process.
    Listen,
    /// The call is over: hand the result to the caller, and terminate the
    /// interpreter of the session if `kill` says so.
    Return { result: Result<Vec<OutputLine>, ExecutionError>, kill: bool },
}

/// Mathematical value of an [`Instruction`].
pub enum InstructionView {
    Wait,
    Spawn { generation: u64 },
    Write { payload: Seq<char> },
    Listen,
    Return { result: Result<Seq<OutputLineView>, ExecutionErrorView>, kill: bool },
}

impl View for Instruction {
    type V = InstructionView;

    open spec fn view(&self) -> InstructionView {
        match self {
            Instruction::Wait => InstructionView::Wait,
            Instruction::Spawn { generation } => InstructionView::Spawn { generation: *generation },
            Instruction::Write { payload } => InstructionView::Write { payload: payload@ },
            Instruction::Listen => InstructionView::Listen,
            Instruction::Return { result, kill } => InstructionView::Return {
                result: match result {
                    Ok(lines) => Ok(lines.deep_view()),
                    Err(e) => Err(e@),
                },
                kill: *kill,
            },
        }
    }
}

/// Where a call is.
#[derive(Debug, Clone, PartialEq, Eq)]
enum Phase {
    Queued,
    Spawning { generation: u64 },
    Running(Execution),
    Over,
}

/// Mathematical value of where a call is.
pub enum PhaseView {
    /// The call waits for its turn, or has not asked yet.
    Queued,
    /// The host spawns the interpreter of the given generation for the call.
    Spawning { generation: u64 },
    /// The call owns the interpreter; its execution is under way.
    Running(ExecutionView),
    /// The result was handed out.
    Over,
}

/// Mathematical value of a [`Call`].
pub struct CallView {
    /// The language of the call.
    pub language: Language,
    /// The session of the call.
    pub session_id: Seq<char>,
    /// The code to run.
    pub code: Seq<char>,
    /// The timeout in seconds, if there is one.
    pub timeout: Option<u64>,
    /// The nonce of the call's sentinel.
    pub nonce: u64,
    /// The ticket that the call drew.
    pub ticket: u64,
    /// Where the call is.
    pub phase: PhaseView,
}

/// One call of `eval`.
#[derive(Debug, Clone, PartialEq, Eq)]
pub struct Call {
    language: Language,
    session_id: String,
    code: String,
    timeout: Option<u64>,
    nonce: u64,
    ticket: u64,
    phase: Phase,
}

impl View for Call {
    type V = CallView;

    closed spec fn view(&self) -> CallView {
        CallView {
            language: self.language,
            session_id: self.session_id@,
            code: self.code@,
            timeout: self.timeout,
            nonce: self.nonce,
            ticket: self.ticket,
            phase: match self.phase {
                Phase::Queued => PhaseView::Queued,
                Phase::Spawning { generation } => PhaseView::Spawning { generation },
                Phase::Running(e) => PhaseView::Running(e@),
                Phase::Over => PhaseView::Over,
            },
        }
    }
}

/// What the engine makes of one report: the handle and the call afterwards,
/// and what the host is to do next.
pub struct Advance {
    pub handle: HandleView,
    pub call: CallView,
    pub instruction: InstructionView,
}

/// The result of a call that is refused for the given reason.
pub open spec fn refused(reason: Seq<char>) -> InstructionView {
    InstructionView::Return {
        result: Err(ExecutionErrorView::InternalError(reason)),
        kill: false,
    }
}

impl CallView {
    /// The call that arrives with the given request, nonce and ticket.
    pub open spec fn arriving(request: ExecutionRequest, nonce: u64, ticket: Ticket) -> CallView {
        CallView {
            language: ticket.language,
            session_id: request.session_id@,
            code: request.code@,
            timeout: request.timeout_seconds,
            nonce,
            ticket: ticket.number,
            phase: PhaseView::Queued,
        }
    }

    /// The call in another phase.
    pub open spec fn in_phase(self, phase: PhaseView) -> CallView {
        CallView { phase, ..self }
    }

    /// The call asks for the interpreter of its session at the time `now`.
    /// Where it is its turn and the interpreter is idle, the execution
    /// starts: the payload is to be written, and the deadline runs from
    /// `now`. Where the session has no interpreter, one is to be spawned.
    /// Where it is not its turn, it waits. A session that is shut down or
    /// used up ends the call with an internal error.
    pub open spec fn asks(self, h: HandleView, now: u64) -> Advance {
        let after = h.after_call(self.language, self.session_id, self.ticket);
        match h.answer(self.language, self.session_id, self.ticket) {
            Admission::Run { execution, generation } => {
                let token = token_text(execution, self.nonce);
                Advance {
                    handle: after,
                    call: self.in_phase(
                        PhaseView::Running(
                            ExecutionView::fresh(token, deadline_for(now, self.timeout)),
                        ),
                    ),
                    instruction: InstructionView::Write {
                        payload: payload_text(self.code, self.language, token),
                    },
                }
            },
            Admission::Spawn { generation } => Advance {
                handle: after,
                call: self.in_phase(PhaseView::Spawning { generation }),
                instruction: InstructionView::Spawn { generation },
            },
            Admission::Busy => Advance {
                handle: after,
                call: self.in_phase(PhaseView::Queued),
                instruction: InstructionView::Wait,
            },
            Admission::Closed => Advance {
                handle: after,
                call: self.in_phase(PhaseView::Over),
                instruction: refused("session is shut down"@),
            },
            Admission::Exhausted => Advance {
                handle: after.after_abandon(self.language, self.session_id, self.ticket),
                call: self.in_phase(PhaseView::Over),
                instruction: refused("session counters are used up"@),
            },
        }
    }

    /// The call takes notice of how its execution stands. An execution that
    /// has ended ends the call: the session is told, the result is handed
    /// out, and the interpreter is terminated after a fault or a timeout. An
    /// execution that goes on is listened to.
    pub open spec fn follows(self, h: HandleView, e: ExecutionView) -> Advance {
        match e.status {
            Some(status) => Advance {
                handle: h.after_run(self.language, self.session_id, status),
                call: self.in_phase(PhaseView::Over),
                instruction: InstructionView::Return {
                    result: e.outcome(),
                    kill: h.kill_after(self.language, self.session_id, status),
                },
            },
            None => Advance {
                handle: h,
                call: self.in_phase(PhaseView::Running(e)),
                instruction: InstructionView::Listen,
            },
        }
    }

    /// The execution of a running call after a report at the time `now`. On a
    /// handle that was shut down the execution counts as timed out at once.
    /// Once the deadline has passed the execution times out whatever is
    /// reported, so code that never stops writing cannot keep it running.
    pub open spec fn observed(
        h: HandleView,
        e: ExecutionView,
        event: HostEventView,
        now: u64,
    ) -> ExecutionView {
        if h.closed {
            e.cancelled()
        } else if e.expired(now) {
            e.step(ProcessEventView::Clock(now))
        } else {
            match event {
                HostEventView::Process(p) => e.step(p),
                HostEventView::WriteFailed => e.step(ProcessEventView::Exited),
                _ => e,
            }
        }
    }

    /// What the engine makes of one report to the call.
    ///
    /// A call that waits asks again on every report. A call whose
    /// interpreter is being spawned takes notice of how that went: it asks
    /// again once the interpreter is ready, and ends with a fault and passes
    /// its turn on if it is not; on any other report it is told to spawn
    /// again. A running call follows its execution. A call that is over stays
    /// over.
    pub open spec fn advanced(self, h: HandleView, event: HostEventView, now: u64) -> Advance {
        match self.phase {
            PhaseView::Over => Advance {
                handle: h,
                call: self,
                instruction: refused("call is over"@),
            },
            PhaseView::Queued => self.asks(h, now),
            PhaseView::Spawning { generation } => match event {
                HostEventView::Spawned(ready) => {
                    let spawned = h.after_spawn(self.language, self.session_id, ready);
                    if ready {
                        self.asks(spawned, now)
                    } else {
                        Advance {
                            handle: spawned.after_abandon(
                                self.language,
                                self.session_id,
                                self.ticket,
                            ),
                            call: self.in_phase(PhaseView::Over),
                            instruction: InstructionView::Return {
                                result: Err(ExecutionErrorView::ExecutionFault(Seq::empty())),
                                kill: false,
                            },
                        }
                    }
                },
                _ => Advance {
                    handle: h,
                    call: self,
                    instruction: InstructionView::Spawn { generation },
                },
            },
            PhaseView::Running(e) => self.follows(h, CallView::observed(h, e, event, now)),
        }
    }
}

/// Whether the call owns the interpreter of its session in `h`, and the call
/// `next` is the one that arrived after it in the same session.
pub open spec fn runs_before(h: HandleView, call: CallView, next: CallView) -> bool {
    &&& h.sessions(call.language) matches Some(sessions)
    &&& well_formed(sessions)
    &&& holds(sessions, call.session_id)
    &&& sessions[position(sessions, call.session_id)].state == SessionState::Executing
    &&& sessions[position(sessions, call.session_id)].serving == call.ticket
    &&& sessions[position(sessions, call.session_id)].executions < u64::MAX
    &&& sessions[position(sessions, call.session_id)].generation < u64::MAX
    &&& call.ticket + 1 < sessions[position(sessions, call.session_id)].next_ticket
    &&& next.language == call.language
    &&& next.session_id == call.session_id
    &&& next.ticket == call.ticket + 1
}

/// State persists from one call to the next. When the execution of a call
/// completes, the interpreter is kept, and the call that arrived next in the
/// same session is told to write its payload at once, to the interpreter of
/// the same generation: it sees what the first call defined.
pub proof fn lemma_next_call_sees_state(
    h: HandleView,
    call: CallView,
    e: ExecutionView,
    next: CallView,
    now: u64,
)
    requires
        runs_before(h, call, next),
        e.status == Some(RunStatus::Completed),
    ensures
        call.follows(h, e).instruction == (InstructionView::Return {
            result: Ok(e.output),
            kill: false,
        }),
        call.follows(h, e).handle.answer(next.language, next.session_id, next.ticket) == (
        Admission::Run {
            execution: (h.sessions(call.language)->0[position(
                h.sessions(call.language)->0,
                call.session_id,
            )].executions + 1) as u64,
            generation: h.sessions(call.language)->0[position(
                h.sessions(call.language)->0,
                call.session_id,
            )].generation,
        }),
        next.asks(call.follows(h, e).handle, now).instruction is Write,
{
    lemma_session_state_persists(h.sessions(call.language)->0, call.session_id);
}

/// After a timeout or a fault the next call starts afresh. The result of the
/// failed call carries the output captured so far, the interpreter is to be
/// terminated, and the call that arrived next in the same session is told to
/// spawn an interpreter of the next generation before anything is written:
/// nothing that was defined before the failure is left.
pub proof fn lemma_next_call_starts_afresh(
    h: HandleView,
    call: CallView,
    e: ExecutionView,
    next: CallView,
    now: u64,
)
    requires
        runs_before(h, call, next),
        e.status == Some(RunStatus::TimedOut) || e.status == Some(RunStatus::Faulted),
    ensures
        call.follows(h, e).instruction == (InstructionView::Return {
            result: e.outcome(),
            kill: true,
        }),
        e.outcome() is Err && e.outcome()->Err_0.output() == e.output,
        next.asks(call.follows(h, e).handle, now).instruction == (InstructionView::Spawn {
            generation: (h.sessions(call.language)->0[position(
                h.sessions(call.language)->0,
                call.session_id,
            )].generation + 1) as u64,
        }),
{
    lemma_session_fresh_after_failure(
        h.sessions(call.language)->0,
        call.session_id,
        e.status->0,
    );
}

/// A deadline is kept. Once the deadline of a running call has passed, the
/// next report ends the call, whatever it reports: the result is a timeout
/// that carries the output captured so far, and the call is over.
pub proof fn lemma_deadline_ends_the_call(
    h: HandleView,
    call: CallView,
    event: HostEventView,
    now: u64,
)
    requires
        call.phase matches PhaseView::Running(e) && e.status is None && e.expired(now),
    ensures
        call.advanced(h, event, now).call.phase is Over,
        call.advanced(h, event, now).instruction matches InstructionView::Return { result, kill }
            && result == Err::<Seq<OutputLineView>, ExecutionErrorView>(
            ExecutionErrorView::TimedOut(call.phase->Running_0.output),
        ),
{
}

/// A call without a timeout is never timed out by the clock: as long as the
/// handle is open, only the marker or the end of the process ends it.
pub proof fn lemma_no_timeout_without_deadline(
    h: HandleView,
    call: CallView,
    event: HostEventView,
    now: u64,
)
    requires
        call.phase matches PhaseView::Running(e) && e.status is None && e.deadline is None,
        !h.closed,
    ensures
        !(call.advanced(h, event, now).instruction matches InstructionView::Return { result, kill }
            && result matches Err(ExecutionErrorView::TimedOut(_))),
{
}

/// Calls of different sessions do not meet. Whatever the host reports to a
/// call, the session of every other id in the same language stays as it was,
/// and so does every session of the other language.
pub proof fn lemma_calls_do_not_meet(
    h: HandleView,
    call: CallView,
    event: HostEventView,
    now: u64,
    other: Seq<char>,
    other_language: Language,
)
    requires
        h.sessions(call.language) matches Some(sessions) && well_formed(sessions) && holds(
            sessions,
            other,
        ),
        other != call.session_id,
        other_language != call.language,
    ensures
        call.advanced(h, event, now).handle.sessions(call.language) matches Some(after)
            && after[position(h.sessions(call.language)->0, other)] == h.sessions(
            call.language,
        )->0[position(h.sessions(call.language)->0, other)],
        call.advanced(h, event, now).handle.sessions(other_language) == h.sessions(
            other_language,
        ),
        call.advanced(h, event, now).handle.closed == h.closed,
{
    let sessions = h.sessions(call.language)->0;
    let id = call.session_id;
    let t = call.ticket;
    lemma_other_sessions_untouched(sessions, id, other, t, true, RunStatus::Completed);
    lemma_other_sessions_untouched(sessions, id, other, t, false, RunStatus::Faulted);
    lemma_other_sessions_untouched(sessions, id, other, t, false, RunStatus::TimedOut);
    match call.phase {
        PhaseView::Queued => {
            lemma_asking_keeps_others(h, call, now, other);
        },
        PhaseView::Spawning { generation } => {
            if event is Spawned {
                let ready = event->Spawned_0;
                let spawned = h.after_spawn(call.language, id, ready);
                lemma_step_keeps_others(sessions, id, other, t, ready, RunStatus::Completed);
                if ready {
                    lemma_asking_keeps_others(spawned, call, now, other);
                }
            }
        },
        _ => {},
    }
}

/// Where the session of `other` stands after each kind of step for `id`: at
/// its place, as it was, among sessions that are still well formed.
proof fn lemma_step_keeps_others(
    sessions: Seq<SessionView>,
    id: Seq<char>,
    other: Seq<char>,
    ticket: u64,
    ready: bool,
    status: RunStatus,
)
    requires
        well_formed(sessions),
        holds(sessions, other),
        other != id,
    ensures
        ({
            let k = position(sessions, other);
            let after_spawn = spawned(sessions, id, ready);
            let after_call = acquired(sessions, id, ticket);
            &&& well_formed(after_spawn) && holds(after_spawn, other) && position(
                after_spawn,
                other,
            ) == k && after_spawn[k] == sessions[k]
            &&& well_formed(after_call) && holds(after_call, other) && position(after_call, other)
                == k && after_call[k] == sessions[k]
        }),
{
    let k = position(sessions, other);
    assert(0 <= k < sessions.len() && sessions[k].id == other);
    lemma_other_sessions_untouched(sessions, id, other, ticket, ready, status);
    assert forall|s: SessionView| s.wf() implies (#[trigger] s.admitted(ticket)).wf() by {
        lemma_session_only_advances(s, ticket, ready, status);
    }
    lemma_changed(sessions, id, |s: SessionView| s.spawned(ready));
    lemma_changed(sessions, id, |s: SessionView| s.admitted(ticket));
    lemma_position_is_unique(spawned(sessions, id, ready), k);
    lemma_position_is_unique(acquired(sessions, id, ticket), k);
}

/// A call that asks leaves the session of every other id as it was.
proof fn lemma_asking_keeps_others(h: HandleView, call: CallView, now: u64, other: Seq<char>)
    requires
        h.sessions(call.language) matches Some(sessions) && well_formed(sessions) && holds(
            sessions,
            other,
        ),
        other != call.session_id,
    ensures
        call.asks(h, now).handle.sessions(call.language) matches Some(after) && after[position(
            h.sessions(call.language)->0,
            other,
        )] == h.sessions(call.language)->0[position(h.sessions(call.language)->0, other)],
        call.asks(h, now).handle.closed == h.closed,
        forall|l: Language|
            l != call.language ==> call.asks(h, now).handle.sessions(l) == h.sessions(l),
{
    let sessions = h.sessions(call.language)->0;
    let id = call.session_id;
    let t = call.ticket;
    lemma_step_keeps_others(sessions, id, other, t, true, RunStatus::Completed);
    lemma_other_sessions_untouched(
        acquired(sessions, id, t),
        id,
        other,
        t,
        true,
        RunStatus::Completed,
    );
}

impl Call {
    /// Returns the language of the call.
    pub fn language(&self) -> (l: Language)
        ensures
            l == self@.language,
    {
        self.language
    }

    /// Returns the session of the call.
    pub fn session_id(&self) -> (id: &str)
        ensures
            id@ == self@.session_id,
    {
        self.session_id.as_str()
    }

    /// Returns the ticket that the call drew.
    pub fn ticket(&self) -> (t: u64)
        ensures
            t == self@.ticket,
    {
        self.ticket
    }

    /// Returns whether the result of the call was handed out.
    pub fn is_over(&self) -> (over: bool)
        ensures
            over == (self@.phase is Over),
    {
        match self.phase {
            Phase::Over => true,
            _ => false,
        }
    }

    /// Returns the deadline of the call's execution, in milliseconds on the
    /// host's clock, if the call runs and has one.
    pub fn deadline(&self) -> (d: Option<u64>)
        ensures
            d == (match self@.phase {
                PhaseView::Running(e) => e.deadline,
                _ => None,
            }),
    {
        match &self.phase {
            Phase::Running(e) => e.deadline(),
            _ => None,
        }
    }
}

impl EngineHandle {
    /// Takes notice of a call that arrives: the request draws its ticket in
    /// its session, and `nonce`, which the host draws at random for each
    /// call, becomes the nonce of its sentinel.
    ///
    /// A language that names no started engine is unsupported, and a handle
    /// that was shut down takes no calls: both leave everything as it was.
    pub fn begin(&mut self, request: &ExecutionRequest, nonce: u64) -> (r: Result<
        Call,
        ExecutionError,
    >)
        requires
            old(self).wf(),
        ensures
            final(self).wf(),
            final(self)@ == old(self)@.after_arrival(request.language@, request.session_id@),
            match r {
                Ok(call) => old(self)@.arrival(request.language@, request.session_id@) matches Ok(
                    ticket,
                ) && call@ == CallView::arriving(*request, nonce, ticket),
                Err(e) => old(self)@.arrival(request.language@, request.session_id@) == Err::<
                    Ticket,
                    ExecutionErrorView,
                >(e@),
            },
    {
        match self.enqueue(request.language.as_str(), request.session_id.as_str()) {
            Ok(ticket) => Ok(
                Call {
                    language: ticket.language,
                    session_id: request.session_id.clone(),
                    code: request.code.clone(),
                    timeout: request.timeout_seconds,
                    nonce,
                    ticket: ticket.number,
                    phase: Phase::Queued,
                },
            ),
            Err(e) => Err(e),
        }
    }

    /// Takes notice of what the host reports for a call at the time `now`,
    /// in milliseconds on the host's clock, and returns what the host is to
    /// do next.
    pub fn advance(&mut self, call: &mut Call, event: HostEvent, now: u64) -> (i: Instruction)
        requires
            old(self).wf(),
        ensures
            final(self).wf(),
            final(self)@ == old(call)@.advanced(old(self)@, event@, now).handle,
            final(call)@ == old(call)@.advanced(old(self)@, event@, now).call,
            i@ == old(call)@.advanced(old(self)@, event@, now).instruction,
    {
        let mut phase = Phase::Over;
        std::mem::swap(&mut phase, &mut call.phase);
        match phase {
            Phase::Over => Instruction::Return {
                result: Err(ExecutionError::InternalError(String::from_str("call is over"))),
                kill: false,
            },
            Phase::Queued => self.ask(call, now),
            Phase::Spawning { generation } => match event {
                HostEvent::Spawned(ready) => {
                    self.spawn_finished(call.language, call.session_id.as_str(), ready);
                    if ready {
                        self.ask(call, now)
                    } else {
                        self.abandon(call.language, call.session_id.as_str(), call.ticket);
                        let lines: Vec<OutputLine> = Vec::new();
                        assert(lines.deep_view() =~= Seq::empty());
                        Instruction::Return {
                            result: Err(ExecutionError::ExecutionFault(lines)),
                            kill: false,
                        }
                    }
                },
                _ => {
                    call.phase = Phase::Spawning { generation };
                    Instruction::Spawn { generation }
                },
            },
            Phase::Running(execution) => {
                let mut execution = execution;
                if self.is_closed() {
                    execution.cancel();
                } else if execution.expired(now) {
                    execution.observe(ProcessEvent::Clock(now));
                } else {
                    match event {
                        HostEvent::Process(p) => {
                            execution.observe(p);
                        },
                        HostEvent::WriteFailed => {
                            execution.observe(ProcessEvent::Exited);
                        },
                        _ => {},
                    }
                }
                match execution.status() {
                    Some(status) => {
                        let kill = self.finish(call.language, call.session_id.as_str(), status);
                        Instruction::Return { result: execution.into_result(), kill }
                    },
                    None => {
                        call.phase = Phase::Running(execution);
                        Instruction::Listen
                    },
                }
            },
        }
    }

    /// Asks for the interpreter of the session of a call that does not run.
    fn ask(&mut self, call: &mut Call, now: u64) -> (i: Instruction)
        requires
            old(self).wf(),
            old(call).phase is Over,
        ensures
            final(self).wf(),
            final(self)@ == old(call)@.asks(old(self)@, now).handle,
            final(call)@ == old(call)@.asks(old(self)@, now).call,
            i@ == old(call)@.asks(old(self)@, now).instruction,
    {
        match self.acquire(call.language, call.session_id.as_str(), call.ticket) {
            Admission::Run { execution, generation } => {
                let token = Sentinel::new(execution, call.nonce).token();
                let text = payload(call.code.as_str(), call.language, token.as_str());
                call.phase = Phase::Running(Execution::begin(token, now, call.timeout));
                Instruction::Write { payload: text }
            },
            Admission::Spawn { generation } => {
                call.phase = Phase::Spawning { generation };
                Instruction::Spawn { generation }
            },
            Admission::Busy => {
                call.phase = Phase::Queued;
                Instruction::Wait
            },
            Admission::Closed => Instruction::Return {
                result: Err(
                    ExecutionError::InternalError(String::from_str("session is shut down")),
                ),
                kill: false,
            },
            Admission::Exhausted => {
                self.abandon(call.language, call.session_id.as_str(), call.ticket);
                Instruction::Return {
                    result: Err(
                        ExecutionError::InternalError(
                            String::from_str("session counters are used up"),
                        ),
                    ),
                    kill: false,
                }
            },
        }
    }
}

} // verus!
