//! Errors of the portal and the JSON-RPC error that each becomes.

use crate::error::HttpStatus;
use crate::portal::language::Language;
use crate::portal::output::{OutputLine, OutputLineView};
use vstd::prelude::*;
use vstd::string::*;

verus! {

/// Every error that a call to the portal can end in.
#[derive(Debug, Clone, PartialEq, Eq)]
pub enum PortalError {
    /// The request is no valid JSON-RPC request.
    JsonRpc(String),
    /// The method is not known.
    MethodNotFound(String),
    /// Something failed inside the portal.
    Internal(String),
    /// The request could not be parsed.
    Parse(String),
}

/// Mathematical value of a [`PortalError`].
pub enum PortalErrorView {
    JsonRpc(Seq<char>),
    MethodNotFound(Seq<char>),
    Internal(Seq<char>),
    Parse(Seq<char>),
}

impl View for PortalError {
    type V = PortalErrorView;

    open spec fn view(&self) -> PortalErrorView {
        match self {
            PortalError::JsonRpc(m) => PortalErrorView::JsonRpc(m@),
            PortalError::MethodNotFound(m) => PortalErrorView::MethodNotFound(m@),
            PortalError::Internal(m) => PortalErrorView::Internal(m@),
            PortalError::Parse(m) => PortalErrorView::Parse(m@),
        }
    }
}

/// The error member of a JSON-RPC response. It carries no further data.
#[derive(Debug, Clone, PartialEq, Eq)]
pub struct JsonRpcError {
    /// The error code of the protocol.
    pub code: i32,
    /// The text for the caller.
    pub message: String,
}

/// What the caller receives for an error of the portal.
#[derive(Debug, Clone, PartialEq, Eq)]
pub struct PortalErrorResponse {
    /// Status of the HTTP response.
    pub status: HttpStatus,
    /// Body of the response.
    pub error: JsonRpcError,
}

/// Mathematical value of a [`PortalErrorResponse`].
pub struct PortalErrorResponseView {
    pub status: HttpStatus,
    pub code: int,
    pub message: Seq<char>,
}

impl View for PortalErrorResponse {
    type V = PortalErrorResponseView;

    open spec fn view(&self) -> PortalErrorResponseView {
        PortalErrorResponseView {
            status: self.status,
            code: self.error.code as int,
            message: self.error.message@,
        }
    }
}

impl PortalErrorView {
    /// The text that the error carries.
    pub open spec fn detail(self) -> Seq<char> {
        match self {
            PortalErrorView::JsonRpc(m) => m,
            PortalErrorView::MethodNotFound(m) => m,
            PortalErrorView::Internal(m) => m,
            PortalErrorView::Parse(m) => m,
        }
    }

    /// Text of the error as a log line shows it: the kind, then the detail.
    pub open spec fn message(self) -> Seq<char> {
        match self {
            PortalErrorView::JsonRpc(m) => "JSON-RPC error: "@ + m,
            PortalErrorView::MethodNotFound(m) => "Method not found: "@ + m,
            PortalErrorView::Internal(m) => "Internal server error: "@ + m,
            PortalErrorView::Parse(m) => "Parse error: "@ + m,
        }
    }

    /// The JSON-RPC error code of the kind.
    pub open spec fn code(self) -> int {
        match self {
            PortalErrorView::JsonRpc(_) => -32600,
            PortalErrorView::MethodNotFound(_) => -32601,
            PortalErrorView::Internal(_) => -32603,
            PortalErrorView::Parse(_) => -32700,
        }
    }

    /// Status of the response that the error becomes.
    pub open spec fn status(self) -> HttpStatus {
        match self {
            PortalErrorView::JsonRpc(_) => HttpStatus::BadRequest,
            PortalErrorView::MethodNotFound(_) => HttpStatus::NotFound,
            PortalErrorView::Internal(_) => HttpStatus::InternalServerError,
            PortalErrorView::Parse(_) => HttpStatus::BadRequest,
        }
    }

    /// The whole response that the error becomes.
    pub open spec fn response(self) -> PortalErrorResponseView {
        PortalErrorResponseView { status: self.status(), code: self.code(), message: self.detail() }
    }
}

impl PortalError {
    /// Returns the text of the error as a log line shows it.
    pub fn message(&self) -> (m: String)
        ensures
            m@ == self@.message(),
    {
        match self {
            PortalError::JsonRpc(m) => String::from_str("JSON-RPC error: ").concat(m.as_str()),
            PortalError::MethodNotFound(m) => String::from_str("Method not found: ").concat(
                m.as_str(),
            ),
            PortalError::Internal(m) => String::from_str("Internal server error: ").concat(
                m.as_str(),
            ),
            PortalError::Parse(m) => String::from_str("Parse error: ").concat(m.as_str()),
        }
    }

    /// Turns the error into the response that the caller receives: the status
    /// and the JSON-RPC code of its kind, and its text unchanged.
    pub fn into_response(self) -> (r: PortalErrorResponse)
        ensures
            r@ == self@.response(),
    {
        let (status, code, message) = match self {
            PortalError::JsonRpc(message) => (HttpStatus::BadRequest, -32600i32, message),
            PortalError::MethodNotFound(message) => (HttpStatus::NotFound, -32601i32, message),
            PortalError::Parse(message) => (HttpStatus::BadRequest, -32700i32, message),
            PortalError::Internal(message) => (
                HttpStatus::InternalServerError,
                -32603i32,
                message,
            ),
        };
        PortalErrorResponse { status, error: JsonRpcError { code, message } }
    }
}

/// Why an engine did not start: its interpreter is missing, left at once, or
/// did not answer the readiness probe in time. It is raised once, when the
/// engines start, and fails the language as a whole.
#[derive(Debug, Clone, PartialEq, Eq)]
pub struct EngineStartupError {
    /// The language whose engine did not start.
    pub language: Language,
    /// What the host saw.
    pub reason: String,
}

/// Mathematical value of an [`EngineStartupError`].
pub struct EngineStartupErrorView {
    pub language: Language,
    pub reason: Seq<char>,
}

impl View for EngineStartupError {
    type V = EngineStartupErrorView;

    open spec fn view(&self) -> EngineStartupErrorView {
        EngineStartupErrorView { language: self.language, reason: self.reason@ }
    }
}

/// Every error that one evaluation can end in. The two that follow a started
/// execution carry the output captured up to the failure.
#[derive(Debug, Clone, PartialEq, Eq)]
pub enum ExecutionError {
    /// The language is none of the started engines'. Nothing was touched.
    UnsupportedLanguage(String),
    /// The interpreter died during the call, for another reason than a timeout.
    ExecutionFault(Vec<OutputLine>),
    /// The deadline passed; the interpreter was terminated.
    TimedOut(Vec<OutputLine>),
    /// An invariant of the engine did not hold.
    InternalError(String),
}

/// Mathematical value of an [`ExecutionError`].
pub enum ExecutionErrorView {
    UnsupportedLanguage(Seq<char>),
    ExecutionFault(Seq<OutputLineView>),
    TimedOut(Seq<OutputLineView>),
    InternalError(Seq<char>),
}

impl View for ExecutionError {
    type V = ExecutionErrorView;

    open spec fn view(&self) -> ExecutionErrorView {
        match self {
            ExecutionError::UnsupportedLanguage(tag) => ExecutionErrorView::UnsupportedLanguage(tag@),
            ExecutionError::ExecutionFault(lines) => ExecutionErrorView::ExecutionFault(
                lines.deep_view(),
            ),
            ExecutionError::TimedOut(lines) => ExecutionErrorView::TimedOut(lines.deep_view()),
            ExecutionError::InternalError(detail) => ExecutionErrorView::InternalError(detail@),
        }
    }
}

impl ExecutionErrorView {
    /// The output that the error carries: what was captured before a fault or
    /// a timeout, nothing for the other errors.
    pub open spec fn output(self) -> Seq<OutputLineView> {
        match self {
            ExecutionErrorView::ExecutionFault(lines) => lines,
            ExecutionErrorView::TimedOut(lines) => lines,
            _ => Seq::empty(),
        }
    }
}

} // verus!
