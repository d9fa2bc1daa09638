//! The execution portal: the engine that runs guest code in persistent
//! interpreter sessions, and the errors of the portal.
//!
//! - [`language`] names the guest languages, [`output`] the captured lines.
//! - [`sentinel`] makes the marker that ends the output of one execution,
//!   and the payload that is written to the interpreter.
//! - [`lines`] cuts the bytes of a pipe into lines.
//! - [`execution`] follows one execution from its first line to its end.
//! - [`session`] is the life of one interpreter, [`registry`] the sessions of
//!   one language, [`engine`] the engines and the handle that callers hold.
//! - [`call`] is one call of `eval`, step by step: the host reports, the
//!   engine decides.
//! - [`payload`] is what the transport hands in and gets back, [`error`] the
//!   errors.

pub mod call;
pub mod engine;
pub mod error;
pub mod execution;
pub mod language;
pub mod lines;
pub mod output;
pub mod payload;
pub mod registry;
pub mod sentinel;
pub mod session;
