//! Configuration logic for a kernel event-tracing capture session.
//!
//! The crate decides everything a capture session has to decide: which
//! tracing-filesystem root to bind, which per-event enable files to flip for a
//! requested set of event categories, which trace clock to select, and how the
//! session advances (or aborts to cleanup) through its phases.  All file I/O
//! is left to the caller: functions here either take the classified result of
//! an accessor operation as an argument, or return the concrete operations
//! ([`ftrace::FsOp`]) the caller is to perform.

pub mod args;
pub mod catalog;
pub mod ftrace;
pub mod resolve;
pub mod session;
pub mod text;
