//! Errors of path resolution, and the filesystem outcomes they come from.
use vstd::prelude::*;

verus! {

#[verifier::external_type_specification]
#[verifier::external_body]
pub struct ExIoError(std::io::Error);

/// The kinds of filesystem failure that the rules here tell apart.
#[derive(Clone, Copy, Debug, PartialEq, Eq, Structural)]
pub enum IoKind {
    NotFound,
    PermissionDenied,
    Other,
}

/// A failed filesystem query: its kind, and the error itself.
#[derive(Debug)]
pub struct IoFailure {
    pub kind: IoKind,
    pub error: std::io::Error,
}

/// Why a configuration path could not be resolved.
#[derive(Debug)]
pub enum ConfigError {
    /// The path is empty, does not exist, or names neither a file nor a
    /// directory.
    NotFileOrDirectory(String),
    /// A filesystem query failed for a reason other than absence.
    Io(std::io::Error),
    /// The directory holds no configuration file.
    CannotFindConfig(String),
}

} // verus!
