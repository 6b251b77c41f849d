//! An embedded, single-threaded script engine exposed as an addressable
//! actor: one dedicated worker thread owns the engine, and every other
//! thread talks to it through commands and one-shot reply channels. This
//! crate holds the bridge itself — the command protocol and worker-loop
//! decisions, export discovery and call routing, exception translation,
//! startup diagnostics, and the promise-correlation table with its
//! single-use resolver handles. The engine binding that performs the
//! script work sits outside, behind plain values.

pub mod channel;
pub mod context;
pub mod diag;
pub mod error;
pub mod fetch;
pub mod machine;
pub mod promise;
pub mod trusted;
pub mod worker;
