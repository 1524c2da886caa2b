//! The command bridge of a desktop playlist exporter: it turns a request
//! (export, list or status) into the argument vector of the external tool,
//! and turns what the tool's process did into one uniform response record.
//! Running the process is left to the host application.

pub mod decimal;
pub mod invocation;
pub mod response;
