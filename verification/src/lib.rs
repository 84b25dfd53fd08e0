//! A virtualized I/O surface for a sandboxed guest: three stream slots
//! (stdin, stdout, stderr) that a host wires to pluggable backends before
//! handing the context to a guest-execution engine. The backends are a
//! closed set: file-backed source and sink, an in-memory readable source,
//! and a capacity-bounded in-memory sink whose writes are all-or-nothing.
//! A deterministic preset builds contexts with no ambient leakage, so two
//! builds driven alike capture identical output.

pub mod backend;
pub mod buffer;
pub mod context;
pub mod engine;
pub mod error;
pub mod host_fs;
pub mod laws;
pub mod preset;
pub mod sink;
pub mod source;
