//! What the transport hands to the engine and what it hands back.

use crate::portal::error::{ExecutionError, ExecutionErrorView};
use crate::portal::output::{OutputLine, OutputLineView};
use vstd::prelude::*;
use vstd::string::*;

verus! {

/// One request to evaluate code. It lives for a single call.
#[derive(Debug, Clone, PartialEq, Eq)]
pub struct ExecutionRequest {
    /// The code to run.
    pub code: String,
    /// The tag of the guest language.
    pub language: String,
    /// The session that the code runs in.
    pub session_id: String,
    /// The timeout in seconds; without one the call waits as long as it takes.
    pub timeout_seconds: Option<u64>,
}

/// The answer to one request.
#[derive(Debug, Clone, PartialEq, Eq)]
pub struct EvalResponse {
    /// `success`, `error` or `timeout`.
    pub status: String,
    /// The captured output; after a fault or a timeout, what was captured
    /// before it.
    pub output: Vec<OutputLine>,
}

/// Mathematical value of an [`EvalResponse`].
pub struct EvalResponseView {
    pub status: Seq<char>,
    pub output: Seq<OutputLineView>,
}

impl View for EvalResponse {
    type V = EvalResponseView;

    open spec fn view(&self) -> EvalResponseView {
        EvalResponseView { status: self.status@, output: self.output.deep_view() }
    }
}

/// The status of the answer to a call that ended in `outcome`.
pub open spec fn status_of(outcome: Result<Seq<OutputLineView>, ExecutionErrorView>) -> Seq<char> {
    match outcome {
        Ok(_) => "success"@,
        Err(ExecutionErrorView::TimedOut(_)) => "timeout"@,
        Err(_) => "error"@,
    }
}

/// The output of the answer to a call that ended in `outcome`: the output of
/// the call, or what its error carries.
pub open spec fn output_of(outcome: Result<Seq<OutputLineView>, ExecutionErrorView>) -> Seq<
    OutputLineView,
> {
    match outcome {
        Ok(lines) => lines,
        Err(e) => e.output(),
    }
}

/// The value of the outcome of a call.
pub open spec fn outcome_view(r: Result<Vec<OutputLine>, ExecutionError>) -> Result<
    Seq<OutputLineView>,
    ExecutionErrorView,
> {
    match r {
        Ok(lines) => Ok(lines.deep_view()),
        Err(e) => Err(e@),
    }
}

/// Turns the outcome of a call into the answer for the transport. Output is
/// never dropped: a call that faulted or timed out answers with what was
/// captured before.
pub fn respond(outcome: Result<Vec<OutputLine>, ExecutionError>) -> (r: EvalResponse)
    ensures
        r@.status == status_of(outcome_view(outcome)),
        r@.output == output_of(outcome_view(outcome)),
{
    match outcome {
        Ok(lines) => EvalResponse { status: String::from_str("success"), output: lines },
        Err(ExecutionError::TimedOut(lines)) => EvalResponse {
            status: String::from_str("timeout"),
            output: lines,
        },
        Err(ExecutionError::ExecutionFault(lines)) => EvalResponse {
            status: String::from_str("error"),
            output: lines,
        },
        Err(_) => {
            let output: Vec<OutputLine> = Vec::new();
            assert(output.deep_view() =~= Seq::empty());
            EvalResponse { status: String::from_str("error"), output }
        },
    }
}

} // verus!
