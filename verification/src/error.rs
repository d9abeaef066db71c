//! The error taxonomy.
//!
//! No error here is fatal to the process: each is isolated to the offending
//! handle or context and reported upward for host-level logging.

use vstd::prelude::*;

verus! {

/// Bad syntax or semantics in script source. Recoverable: a prior good
/// executable, if any, stays in service.
#[derive(Debug, Clone, PartialEq)]
pub struct CompileError {
    /// Human-readable description of the failure.
    pub message: String,
    /// Source line of the failure, where the backend reports one.
    pub line: Option<u64>,
    /// Source column of the failure, where the backend reports one.
    pub column: Option<u64>,
}

/// An asset that could not be read or found. Surfaced once; the asset stays
/// unloaded.
#[derive(Debug, Clone, PartialEq)]
pub struct LoadError {
    /// Human-readable description of the failure.
    pub message: String,
}

/// A per-tick fault. Recoverable: native state is rolled back to its pre-tick
/// value and the next tick retries from scratch.
#[derive(Debug, Clone, PartialEq)]
pub enum ExecutionError {
    /// The script faulted at run time.
    Runtime { message: String },
    /// A marshaled value failed the copy-in/copy-out shape check; never
    /// silently coerced.
    BindingMismatch { message: String },
}

} // verus!
