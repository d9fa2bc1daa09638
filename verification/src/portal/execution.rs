//! One execution: the events that the interpreter's process gives rise to,
//! and what the engine makes of them.
//!
//! The host writes the payload to the interpreter and then reports what it
//! sees: each line of output as it arrives, the end of the process, the
//! passing of time. An [`Execution`] records the lines in the order in which
//! they are reported and decides when the call is over.

use crate::portal::error::{ExecutionError, ExecutionErrorView};
use crate::portal::output::{stream_texts, OutputLine, OutputLineView, Stream};
use crate::portal::sentinel::{before_marker, cut_marker, is_marker};
use vstd::prelude::*;
use vstd::string::*;

verus! {

/// How an execution ended.
#[derive(Debug, Clone, Copy, PartialEq, Eq, Structural)]
pub enum RunStatus {
    /// The sentinel appeared on standard output.
    Completed,
    /// The interpreter's process ended before the sentinel appeared.
    Faulted,
    /// The deadline passed before the sentinel appeared.
    TimedOut,
}

/// Something that the host saw of the interpreter's process.
#[derive(Debug, Clone, PartialEq, Eq)]
pub enum ProcessEvent {
    /// A line arrived on one of the two streams.
    Line(OutputLine),
    /// The process ended, or closed its output.
    Exited,
    /// The clock shows the given time, in milliseconds.
    Clock(u64),
}

/// Mathematical value of a [`ProcessEvent`].
pub enum ProcessEventView {
    Line(OutputLineView),
    Exited,
    Clock(u64),
}

impl View for ProcessEvent {
    type V = ProcessEventView;

    open spec fn view(&self) -> ProcessEventView {
        match self {
            ProcessEvent::Line(l) => ProcessEventView::Line(l@),
            ProcessEvent::Exited => ProcessEventView::Exited,
            ProcessEvent::Clock(t) => ProcessEventView::Clock(*t),
        }
    }
}

/// The time at which a call that started at `started_at` (in milliseconds)
/// with a timeout of `timeout_seconds` is over: the start plus the timeout,
/// or the largest time where that is beyond it. A call without a timeout has
/// no deadline.
pub open spec fn deadline_for(started_at: u64, timeout_seconds: Option<u64>) -> Option<u64> {
    match timeout_seconds {
        None => None,
        Some(t) => if started_at + t * 1000 <= u64::MAX {
            Some((started_at + t * 1000) as u64)
        } else {
            Some(u64::MAX)
        },
    }
}

/// Returns the deadline of a call that started at `started_at`.
pub fn deadline(started_at: u64, timeout_seconds: Option<u64>) -> (d: Option<u64>)
    ensures
        d == deadline_for(started_at, timeout_seconds),
{
    match timeout_seconds {
        None => None,
        Some(t) => {
            let room: u64 = u64::MAX - started_at;
            if t > room / 1000 {
                Some(u64::MAX)
            } else {
                Some(started_at + t * 1000)
            }
        },
    }
}

/// Mathematical value of an [`Execution`].
pub struct ExecutionView {
    /// The token that ends the execution.
    pub token: Seq<char>,
    /// The time at which the execution is over, if it has a deadline.
    pub deadline: Option<u64>,
    /// The lines captured so far, in the order in which they were reported.
    pub output: Seq<OutputLineView>,
    /// How the execution ended, once it has.
    pub status: Option<RunStatus>,
}

impl ExecutionView {
    /// The execution as it starts: nothing captured, not ended.
    pub open spec fn fresh(token: Seq<char>, deadline: Option<u64>) -> ExecutionView {
        ExecutionView { token, deadline, output: Seq::empty(), status: None }
    }

    /// Whether the deadline has passed at `now`.
    pub open spec fn expired(self, now: u64) -> bool {
        self.deadline matches Some(d) && now >= d
    }

    /// The line that the event adds to the output, if it adds one. A running
    /// execution captures every line but the marker; of the marker it
    /// captures what stands before the token, where anything does. An
    /// execution that has ended captures nothing.
    pub open spec fn captured(self, event: ProcessEventView) -> Option<OutputLineView> {
        if self.status is Some {
            None
        } else {
            match event {
                ProcessEventView::Line(l) => if !is_marker(l, self.token) {
                    Some(l)
                } else if before_marker(l, self.token).len() > 0 {
                    Some(OutputLineView { stream: l.stream, text: before_marker(l, self.token) })
                } else {
                    None
                },
                _ => None,
            }
        }
    }

    /// How the event ends the execution, if it does. A running execution
    /// ends as completed on the marker, as faulted on the end of the process,
    /// and as timed out on a clock at or after the deadline.
    pub open spec fn ended_by(self, event: ProcessEventView) -> Option<RunStatus> {
        match event {
            ProcessEventView::Line(l) => if is_marker(l, self.token) {
                Some(RunStatus::Completed)
            } else {
                None
            },
            ProcessEventView::Exited => Some(RunStatus::Faulted),
            ProcessEventView::Clock(now) => if self.expired(now) {
                Some(RunStatus::TimedOut)
            } else {
                None
            },
        }
    }

    /// The execution after one event: what the event adds is captured, and
    /// the execution ends if the event ends it. An execution that has ended
    /// takes no notice of events.
    pub open spec fn step(self, event: ProcessEventView) -> ExecutionView {
        if self.status is Some {
            self
        } else {
            ExecutionView {
                output: match self.captured(event) {
                    Some(l) => self.output.push(l),
                    None => self.output,
                },
                status: self.ended_by(event),
                ..self
            }
        }
    }

    /// The execution after the events of `events`, first to last.
    pub open spec fn run(self, events: Seq<ProcessEventView>) -> ExecutionView
        decreases events.len(),
    {
        if events.len() == 0 {
            self
        } else {
            self.run(events.drop_last()).step(events.last())
        }
    }

    /// The execution after it was called off, as a shutdown does: a running
    /// execution ends as timed out, one that has ended stays as it is.
    pub open spec fn cancelled(self) -> ExecutionView {
        if self.status is Some {
            self
        } else {
            ExecutionView { status: Some(RunStatus::TimedOut), ..self }
        }
    }

    /// What the caller receives once the execution has ended: the output of a
    /// completed execution, and the error that carries the partial output of
    /// one that faulted or timed out. An execution that has not ended has no
    /// result yet, which is an internal error.
    pub open spec fn outcome(self) -> Result<Seq<OutputLineView>, ExecutionErrorView> {
        match self.status {
            Some(RunStatus::Completed) => Ok(self.output),
            Some(RunStatus::Faulted) => Err(ExecutionErrorView::ExecutionFault(self.output)),
            Some(RunStatus::TimedOut) => Err(ExecutionErrorView::TimedOut(self.output)),
            None => Err(ExecutionErrorView::InternalError("execution has not ended"@)),
        }
    }
}

/// One more event is one more step.
pub proof fn lemma_run_next(e: ExecutionView, events: Seq<ProcessEventView>, k: int)
    requires
        0 <= k < events.len(),
    ensures
        e.run(events.take(k + 1)) == e.run(events.take(k)).step(events[k]),
{
    let front = events.take(k + 1);
    assert(front.drop_last() =~= events.take(k));
    assert(front.last() == events[k]);
}

/// Output is only ever added to: what was captured after the first `k`
/// events is the beginning of what is captured after all of them.
pub proof fn lemma_output_only_grows(e: ExecutionView, events: Seq<ProcessEventView>, k: int)
    requires
        0 <= k <= events.len(),
    ensures
        e.run(events.take(k)).output.is_prefix_of(e.run(events).output),
    decreases events.len() - k,
{
    if k == events.len() {
        assert(events.take(k) =~= events);
    } else {
        lemma_run_next(e, events, k);
        lemma_output_only_grows(e, events, k + 1);
        let a = e.run(events.take(k)).output;
        let b = e.run(events.take(k + 1)).output;
        let c = e.run(events).output;
        assert(a.is_prefix_of(b));
        assert(a =~= c.subrange(0, a.len() as int));
    }
}

/// Lines keep the order in which they were reported. Where event `i` and a
/// later event `j` both added a line, both lines stand in the final output,
/// the first before the second.
pub proof fn lemma_lines_keep_their_order(
    e: ExecutionView,
    events: Seq<ProcessEventView>,
    i: int,
    j: int,
)
    requires
        0 <= i < j < events.len(),
        e.run(events.take(i)).captured(events[i]) is Some,
        e.run(events.take(j)).captured(events[j]) is Some,
    ensures
        ({
            let p = e.run(events.take(i)).output.len() as int;
            let q = e.run(events.take(j)).output.len() as int;
            let output = e.run(events).output;
            &&& 0 <= p < q < output.len()
            &&& Some(output[p]) == e.run(events.take(i)).captured(events[i])
            &&& Some(output[q]) == e.run(events.take(j)).captured(events[j])
        }),
{
    let output = e.run(events).output;
    let before_i = e.run(events.take(i)).output;
    let after_i = e.run(events.take(i + 1)).output;
    let before_j = e.run(events.take(j)).output;
    let after_j = e.run(events.take(j + 1)).output;
    lemma_run_next(e, events, i);
    lemma_run_next(e, events, j);
    lemma_output_only_grows(e, events, i + 1);
    lemma_output_only_grows(e, events, j + 1);
    lemma_output_only_grows(e, events.take(j), i + 1);
    assert(events.take(j).take(i + 1) =~= events.take(i + 1));
    assert(after_i.is_prefix_of(before_j));
    assert(after_i.len() == before_i.len() + 1);
    assert(after_j.len() == before_j.len() + 1);
    assert(output[before_i.len() as int] == after_i[before_i.len() as int]);
    assert(output[before_j.len() as int] == after_j[before_j.len() as int]);
}

/// Each stream keeps its own order. A line that is captured goes to the end
/// of the lines of its stream and leaves the lines of the other stream as
/// they were; an event that adds no line changes the lines of no stream.
pub proof fn lemma_stream_grows_at_its_end(
    e: ExecutionView,
    event: ProcessEventView,
    stream: Stream,
)
    ensures
        stream_texts(e.step(event).output, stream) == (match e.captured(event) {
            Some(l) if l.stream == stream => stream_texts(e.output, stream).push(l.text),
            _ => stream_texts(e.output, stream),
        }),
{
    if e.captured(event) is Some {
        let l = e.captured(event)->0;
        let of_stream = |l: OutputLineView| l.stream == stream;
        let text_of = |l: OutputLineView| l.text;
        assert(e.step(event).output == e.output.push(l));
        assert(e.output.push(l) =~= e.output + seq![l]);
        Seq::filter_distributes_over_add(e.output, seq![l], of_stream);
        reveal_with_fuel(Seq::filter, 2);
        assert(seq![l].drop_last() =~= Seq::<OutputLineView>::empty());
        assert(seq![l].last() == l);
        if l.stream == stream {
            assert(seq![l].filter(of_stream) =~= seq![l]);
            assert((e.output.filter(of_stream) + seq![l]).map_values(text_of) =~= e.output.filter(
                of_stream,
            ).map_values(text_of).push(l.text));
        } else {
            assert(seq![l].filter(of_stream) =~= Seq::<OutputLineView>::empty());
            assert(e.output.filter(of_stream) + Seq::<OutputLineView>::empty() =~= e.output.filter(
                of_stream,
            ));
        }
    }
}

/// Whether a line of output comes from an event: the event is a line of the
/// same stream that begins with the text of the output line.
pub open spec fn comes_from(line: OutputLineView, event: ProcessEventView) -> bool {
    event matches ProcessEventView::Line(l) && l.stream == line.stream && line.text.is_prefix_of(
        l.text,
    )
}

/// An execution holds what was reported to it and nothing else: every line of
/// its output comes from one of its own events.
pub proof fn lemma_output_comes_from_events(
    token: Seq<char>,
    deadline: Option<u64>,
    events: Seq<ProcessEventView>,
    p: int,
)
    requires
        0 <= p < ExecutionView::fresh(token, deadline).run(events).output.len(),
    ensures
        exists|k: int|
            0 <= k < events.len() && comes_from(
                ExecutionView::fresh(token, deadline).run(events).output[p],
                #[trigger] events[k],
            ),
    decreases events.len(),
{
    let e = ExecutionView::fresh(token, deadline);
    if events.len() > 0 {
        let front = events.drop_last();
        let before = e.run(front);
        if p < before.output.len() {
            lemma_output_comes_from_events(token, deadline, front, p);
            let k = choose|k: int|
                0 <= k < front.len() && comes_from(before.output[p], #[trigger] front[k]);
            assert(events[k] == front[k]);
            assert(e.run(events).output[p] == before.output[p]);
        } else {
            let k = events.len() - 1;
            let l = before.captured(events[k])->0;
            assert(e.run(events).output[p] == l);
            assert(l.text.is_prefix_of(events[k]->Line_0.text));
            assert(comes_from(l, events[k]));
        }
    }
}

/// An execution that has ended stays as it is, whatever is reported later.
pub proof fn lemma_ended_stays(e: ExecutionView, events: Seq<ProcessEventView>)
    requires
        e.status is Some,
    ensures
        e.run(events) == e,
    decreases events.len(),
{
    if events.len() > 0 {
        lemma_ended_stays(e, events.drop_last());
    }
}

/// One execution in progress.
#[derive(Debug, Clone, PartialEq, Eq)]
pub struct Execution {
    token: String,
    deadline: Option<u64>,
    output: Vec<OutputLine>,
    status: Option<RunStatus>,
}

impl View for Execution {
    type V = ExecutionView;

    closed spec fn view(&self) -> ExecutionView {
        ExecutionView {
            token: self.token@,
            deadline: self.deadline,
            output: self.output.deep_view(),
            status: self.status,
        }
    }
}

impl Execution {
    /// Starts an execution that ends on `token`, at `started_at` on the
    /// host's clock (in milliseconds), with the given timeout in seconds.
    pub fn begin(token: String, started_at: u64, timeout_seconds: Option<u64>) -> (e: Execution)
        ensures
            e@ == ExecutionView::fresh(token@, deadline_for(started_at, timeout_seconds)),
    {
        let e = Execution {
            token,
            deadline: deadline(started_at, timeout_seconds),
            output: Vec::new(),
            status: None,
        };
        assert(e.output.deep_view() =~= Seq::empty());
        e
    }

    /// Returns how the execution ended, if it has.
    pub fn status(&self) -> (s: Option<RunStatus>)
        ensures
            s == self@.status,
    {
        self.status
    }

    /// Returns the time at which the execution is over, if it has a deadline.
    pub fn deadline(&self) -> (d: Option<u64>)
        ensures
            d == self@.deadline,
    {
        self.deadline
    }

    /// Returns whether the deadline has passed at `now`.
    pub fn expired(&self, now: u64) -> (over: bool)
        ensures
            over == self@.expired(now),
    {
        match self.deadline {
            Some(d) => now >= d,
            None => false,
        }
    }

    /// Takes notice of one event, and returns how the execution ended if it
    /// has ended by now.
    pub fn observe(&mut self, event: ProcessEvent) -> (s: Option<RunStatus>)
        ensures
            final(self)@ == old(self)@.step(event@),
            s == final(self)@.status,
    {
        if self.status.is_some() {
            return self.status;
        }
        match event {
            ProcessEvent::Line(line) => {
                let ghost before = self.output.deep_view();
                match cut_marker(&line, self.token.as_str()) {
                    Some(text) => {
                        if text.as_str().unicode_len() > 0 {
                            let rest = OutputLine::new(line.stream, text);
                            self.output.push(rest);
                            assert(self.output.deep_view() =~= before.push(rest@));
                        }
                        self.status = Some(RunStatus::Completed);
                    },
                    None => {
                        self.output.push(line);
                        assert(self.output.deep_view() =~= before.push(line@));
                    },
                }
            },
            ProcessEvent::Exited => {
                self.status = Some(RunStatus::Faulted);
            },
            ProcessEvent::Clock(now) => {
                if self.expired(now) {
                    self.status = Some(RunStatus::TimedOut);
                }
            },
        }
        self.status
    }

    /// Ends a running execution as timed out, as a shutdown does. One that
    /// has ended is left as it is.
    pub fn cancel(&mut self)
        ensures
            final(self)@ == old(self)@.cancelled(),
    {
        if self.status.is_none() {
            self.status = Some(RunStatus::TimedOut);
        }
    }

    /// Hands out what the caller receives: the output of a completed
    /// execution, or the error that carries the output captured before the
    /// fault or the timeout.
    pub fn into_result(self) -> (r: Result<Vec<OutputLine>, ExecutionError>)
        ensures
            match r {
                Ok(lines) => self@.outcome() == Ok::<Seq<OutputLineView>, ExecutionErrorView>(
                    lines.deep_view(),
                ),
                Err(e) => self@.outcome() == Err::<Seq<OutputLineView>, ExecutionErrorView>(e@),
            },
    {
        match self.status {
            Some(RunStatus::Completed) => Ok(self.output),
            Some(RunStatus::Faulted) => Err(ExecutionError::ExecutionFault(self.output)),
            Some(RunStatus::TimedOut) => Err(ExecutionError::TimedOut(self.output)),
            None => Err(
                ExecutionError::InternalError(
                    String::from_str("execution has not ended"),
                ),
            ),
        }
    }
}

} // verus!
