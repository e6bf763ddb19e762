//! Resolving a user-supplied path to the configuration file it stands for.
//!
//! Resolution runs in steps. Each step decides, from what the previous
//! filesystem query found, either the result or the next query to make.
use vstd::prelude::*;
use crate::error::{ConfigError, IoFailure, IoKind};
use crate::path::{absolute_path, is_absolute, join, joined_path};

verus! {

/// The name of the configuration file looked for inside a directory.
pub const CONFIG_FILE_NAME: &'static str = "openmw.cfg";

/// What a filesystem entry turned out to be.
#[derive(Clone, Copy, Debug, PartialEq, Eq, Structural)]
pub enum EntryKind {
    Directory,
    File,
    Symlink,
    /// Anything else: a device, a socket, a pipe.
    Other,
}

/// The outcome of validating a path before it is looked up.
#[derive(Debug)]
pub enum Validation {
    /// The path is usable as it stands.
    Valid(String),
    /// The path is relative: it is to be canonicalized against the current
    /// directory, and the outcome handed to [`canonicalized`].
    Canonicalize(String),
    /// The path is refused.
    Invalid(ConfigError),
}

/// The outcome of inspecting a validated path.
#[derive(Debug)]
pub enum Inspection {
    /// The path names the configuration file itself.
    Found(String),
    /// The path names a directory: whether `candidate` exists there as a file
    /// or a symlink is to be checked, and handed to [`config_in_directory`].
    ProbeConfig { dir: String, candidate: String },
    /// The path cannot name a configuration.
    Failed(ConfigError),
}

/// Validates a path: an empty one is refused, an absolute one is kept as it
/// is, without looking at the disk, and a relative one is to be
/// canonicalized.
pub fn validate_path_step(check_path: String) -> (r: Validation)
    ensures
        check_path@.len() == 0 ==> r == Validation::Invalid(
            ConfigError::NotFileOrDirectory(check_path),
        ),
        check_path@.len() > 0 && absolute_path(check_path@) ==> r == Validation::Valid(check_path),
        check_path@.len() > 0 && !absolute_path(check_path@) ==> r == Validation::Canonicalize(
            check_path,
        ),
{
    if check_path.as_str().is_empty() {
        Validation::Invalid(ConfigError::NotFileOrDirectory(check_path))
    } else if is_absolute(check_path.as_str()) {
        Validation::Valid(check_path)
    } else {
        Validation::Canonicalize(check_path)
    }
}

/// Takes the outcome of canonicalizing a relative path: the canonical path,
/// or the failure as an I/O error.
pub fn canonicalized(result: Result<String, std::io::Error>) -> (r: Result<String, ConfigError>)
    ensures
        match result {
            Ok(p) => r == Ok::<String, ConfigError>(p),
            Err(e) => r == Err::<String, ConfigError>(ConfigError::Io(e)),
        },
{
    match result {
        Ok(p) => Ok(p),
        Err(e) => Err(ConfigError::Io(e)),
    }
}

/// Decides from the metadata of a validated path what it stands for: a
/// directory is searched for the configuration file, a file or symlink is the
/// configuration itself, and a missing or special entry is refused.
pub fn inspect_entry(check_path: String, entry: Result<EntryKind, IoFailure>) -> (r: Inspection)
    ensures
        match entry {
            Ok(EntryKind::Directory) => r is ProbeConfig && r->dir == check_path
                && r->candidate@ == joined_path(check_path@, CONFIG_FILE_NAME@),
            Ok(EntryKind::File) => r == Inspection::Found(check_path),
            Ok(EntryKind::Symlink) => r == Inspection::Found(check_path),
            Ok(EntryKind::Other) => r == Inspection::Failed(
                ConfigError::NotFileOrDirectory(check_path),
            ),
            Err(f) => if f.kind == IoKind::NotFound {
                r == Inspection::Failed(ConfigError::NotFileOrDirectory(check_path))
            } else {
                r == Inspection::Failed(ConfigError::Io(f.error))
            },
        },
{
    match entry {
        Ok(EntryKind::Directory) => {
            let candidate = join(check_path.as_str(), CONFIG_FILE_NAME);
            Inspection::ProbeConfig { dir: check_path, candidate }
        },
        Ok(EntryKind::File) | Ok(EntryKind::Symlink) => Inspection::Found(check_path),
        Ok(EntryKind::Other) => Inspection::Failed(ConfigError::NotFileOrDirectory(check_path)),
        Err(f) => {
            if f.kind == IoKind::NotFound {
                Inspection::Failed(ConfigError::NotFileOrDirectory(check_path))
            } else {
                Inspection::Failed(ConfigError::Io(f.error))
            }
        },
    }
}

/// Takes whether the configuration file inside `dir` exists as a file or a
/// symlink: if so it is the result, else the directory holds no configuration.
pub fn config_in_directory(dir: String, candidate: String, present: bool) -> (r: Result<
    String,
    ConfigError,
>)
    ensures
        present ==> r == Ok::<String, ConfigError>(candidate),
        !present ==> r == Err::<String, ConfigError>(ConfigError::CannotFindConfig(dir)),
{
    if present {
        Ok(candidate)
    } else {
        Err(ConfigError::CannotFindConfig(dir))
    }
}

} // verus!
