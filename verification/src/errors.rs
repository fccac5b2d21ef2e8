//! The failure taxonomy of the pipeline. Every fatal condition is a typed
//! value surfaced to one top-level handler, which prints a diagnostic and
//! exits with `FAILURE_EXIT`; no stage recovers or retries.

use vstd::prelude::*;
use vstd::string::*;

verus! {

/// The exit code of every failed `init` run and of the `enter` sub-command.
pub const FAILURE_EXIT: u8 = 254;

#[derive(Debug)]
pub enum InitError {
    /// The pod manifest is missing, malformed, or holds an app count != 1.
    ManifestError { detail: String },
    /// A restricted flag carried a non-empty value.
    FlagError { flag: String },
    /// A delegated tool failed to spawn or exited non-zero, or the final
    /// process replacement failed.
    ExternalToolError { detail: String },
    /// A symlink rewrite, working-directory query, or PID-record write failed.
    FilesystemError { detail: String },
    /// The entrypoint was not found via the mangled search path.
    ResolutionError,
    /// The `enter` sub-command is not supported.
    UnsupportedOperation,
}

impl InitError {
    /// The diagnostic line for the top-level handler to print.
    pub fn message(&self) -> (r: String)
        ensures
            (match self {
                InitError::ManifestError { detail } => r@ == "manifest error: "@ + detail@,
                InitError::FlagError { flag } => r@ == "unsupported flag '"@ + flag@
                    + "' specified"@,
                InitError::ExternalToolError { detail } => r@ == "external tool error: "@
                    + detail@,
                InitError::FilesystemError { detail } => r@ == "filesystem error: "@ + detail@,
                InitError::ResolutionError => r@ == "entrypoint not found in PATH"@,
                InitError::UnsupportedOperation => r@ == "operation not supported"@,
            }),
    {
        match self {
            InitError::ManifestError { detail } => String::from_str("manifest error: ").concat(
                detail.as_str(),
            ),
            InitError::FlagError { flag } => String::from_str("unsupported flag '").concat(
                flag.as_str(),
            ).concat("' specified"),
            InitError::ExternalToolError { detail } => String::from_str(
                "external tool error: ",
            ).concat(detail.as_str()),
            InitError::FilesystemError { detail } => String::from_str("filesystem error: ").concat(
                detail.as_str(),
            ),
            InitError::ResolutionError => String::from_str("entrypoint not found in PATH"),
            InitError::UnsupportedOperation => String::from_str("operation not supported"),
        }
    }
}

} // verus!
