//! Typed failures surfaced by this layer.

use vstd::prelude::*;

verus! {

/// Every recoverable or contract failure this layer can report.
///
/// Compilation itself cannot fail except by violated configuration
/// preconditions (the two `Missing*` variants); the remaining variants
/// interpret what an external tool handed back.
#[derive(Debug)]
pub enum DriverError {
    /// Migration was requested without a graph-root path in the runtime
    /// context.
    MissingGraphroot,
    /// Migration was requested without a secondary read-only store path
    /// in the runtime context.
    MissingRoStore,
    /// An external tool exited non-zero; carries its standard-error
    /// text, trimmed of leading and trailing ASCII whitespace.
    CommandFailed { stderr: Vec<u8> },
    /// A process-id text (from inspect output or a pidfile) was not an
    /// unsigned decimal integer in range.
    PidParse,
}

} // verus!
