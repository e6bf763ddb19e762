//! Deciding whether a path can be written, from probes the caller makes.
//!
//! The rule is a heuristic: only a refused permission counts as not
//! writable; every other failure is taken to allow writing.
use vstd::prelude::*;
use crate::error::IoKind;
use crate::path::{join, joined_path, parent, parent_path};

verus! {

/// The name of the file created, then removed, to test a directory.
pub const PROBE_FILE_NAME: &'static str = ".write_test_tmp";

/// The probe to make for a path.
#[derive(Debug, PartialEq, Eq)]
pub enum WriteProbe {
    /// The path exists: open it for writing, without creating or truncating.
    OpenExisting,
    /// The path does not exist: create this file, and remove it if that
    /// succeeded.
    CreateProbe(String),
    /// The path does not exist and has no parent: it is not writable.
    NoParent,
}

/// Chooses the probe for `path`, given whether it exists.
pub fn write_probe(path: &str, exists: bool) -> (r: WriteProbe)
    ensures
        exists ==> r == WriteProbe::OpenExisting,
        !exists ==> match parent_path(path@) {
            Some(dir) => r is CreateProbe && r->CreateProbe_0@ == joined_path(
                dir,
                PROBE_FILE_NAME@,
            ),
            None => r == WriteProbe::NoParent,
        },
{
    if exists {
        WriteProbe::OpenExisting
    } else {
        match parent(path) {
            Some(dir) => WriteProbe::CreateProbe(join(dir.as_str(), PROBE_FILE_NAME)),
            None => WriteProbe::NoParent,
        }
    }
}

/// Whether the probe's outcome allows writing: all but a refused permission
/// do.
pub fn write_allowed(outcome: Result<(), IoKind>) -> (r: bool)
    ensures
        r == (outcome != Err::<(), IoKind>(IoKind::PermissionDenied)),
{
    match outcome {
        Ok(()) => true,
        Err(kind) => kind != IoKind::PermissionDenied,
    }
}

} // verus!
