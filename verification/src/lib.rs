//! Gateway rules and execution-engine core of a multi-tenant code sandbox.
//!
//! The sandbox runs untrusted code in persistent interpreter sessions behind
//! a gateway that authenticates each request and keeps tenants apart. This
//! crate holds the decisions of both, verified:
//!
//! - [`portal`] is the engine. It decides which call owns the interpreter of
//!   a session, when a fresh interpreter is spawned, how the output of one
//!   execution is cut out of the interpreter's continuous output, and when an
//!   execution is over. A host acts on the decisions: it launches processes,
//!   moves bytes, and keeps time.
//! - [`middleware`], [`token`] and [`error`] are the gateway: where the API
//!   key of a request is found, when its token is accepted, which namespace a
//!   request may reach, and what a client is told when a request fails.
//! - [`headers`], [`json`] and [`reference`] give names to what other crates
//!   compute. Their doc comments say what is taken on trust.
//!
//! Every function has a contract over the mathematical value of its
//! arguments and result, and the laws that relate several functions are
//! proved as public proof functions beside them.

pub mod error;
pub mod headers;
pub mod json;
pub mod middleware;
pub mod portal;
pub mod reference;
pub mod state;
pub mod text;
pub mod token;
