//! Locating and validating the paths of an `openmw.cfg` configuration.
//!
//! Paths are held as `String`. Every filesystem query is made by the caller,
//! which hands its outcome to the functions here; they decide what the
//! outcome means.

pub mod debug;
pub mod error;
pub mod path;
pub mod resolve;
pub mod select;
pub mod writable;

