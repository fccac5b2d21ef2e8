//! The captured outcome of one delegated external-tool invocation. The caller
//! spawns the tool and waits for it; the pipeline's rules only ever see this
//! record (or `None` of it, when the tool could not be spawned).

use vstd::prelude::*;

verus! {

/// What one finished tool invocation reported.
pub struct ToolOutput {
    /// Whether the tool exited with status zero.
    pub success: bool,
    /// The exit status, described as text, for diagnostics.
    pub status: String,
    /// Captured standard output, decoded as text.
    pub stdout: String,
    /// Captured standard error, decoded as text.
    pub stderr: String,
}

} // verus!
