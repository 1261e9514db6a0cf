//! Decision core of a one-shot formatting hook: given the path of a file
//! that was just written, decide which formatter to run, with what
//! arguments, in what working directory, and in what priority order.
//!
//! All filesystem and process effects live outside this crate.  The caller
//! supplies a [`host::HostView`] recording which paths exist and which
//! commands are on the search path; the library resolves an ordered list of
//! formatter candidates and drives a dispatch state machine whose steps the
//! caller executes.

pub mod dispatch;
pub mod extract;
pub mod format;
pub mod host;
pub mod laws;
pub mod paths;
pub mod project;
pub mod respond;
pub mod strutil;
