//! Control plane for ephemeral virtual machines.
//!
//! Typed lifecycle commands (launch, start, stop, restart, delete, info,
//! list) are translated into invocations of an external virtualization
//! command-line tool; the tool's JSON output is parsed into typed records
//! under a fixed error taxonomy, and the result is re-exposed through an
//! interactive command surface and an HTTP API.

pub mod cli;
pub mod json;
pub mod runtime;
pub mod server;
pub mod text;
pub mod vm;

