//! Path arithmetic, as the standard library does it for the target platform.
use vstd::prelude::*;

verus! {

/// Whether `std::path::Path::is_absolute` holds of the path with this text.
pub uninterp spec fn absolute_path(p: Seq<char>) -> bool;

/// The text of `std::path::Path::join` applied to `base` and `name`.
pub uninterp spec fn joined_path(base: Seq<char>, name: Seq<char>) -> Seq<char>;

/// The text of `std::path::Path::parent` of the path, if it has one.
pub uninterp spec fn parent_path(p: Seq<char>) -> Option<Seq<char>>;

/// Relies on `std::path::Path::is_absolute`, which reads the path's text alone.
#[verifier::external_body]
pub(crate) fn is_absolute(p: &str) -> (r: bool)
    ensures
        r == absolute_path(p@),
{
    std::path::Path::new(p).is_absolute()
}

/// Relies on `std::path::Path::join`, which builds its result from the two
/// texts alone; joining two UTF-8 paths gives a UTF-8 path, so the conversion
/// back to `String` loses nothing.
#[verifier::external_body]
pub(crate) fn join(base: &str, name: &str) -> (r: String)
    ensures
        r@ == joined_path(base@, name@),
{
    std::path::Path::new(base).join(name).to_string_lossy().into_owned()
}

/// Relies on `std::path::Path::parent`, which strips the last component of
/// the path's text; a prefix of a UTF-8 path at a component boundary is UTF-8.
#[verifier::external_body]
pub(crate) fn parent(p: &str) -> (r: Option<String>)
    ensures
        match r {
            Some(q) => parent_path(p@) == Some(q@),
            None => parent_path(p@) is None,
        },
{
    match std::path::Path::new(p).parent() {
        Some(q) => Some(q.to_string_lossy().into_owned()),
        None => None,
    }
}

} // verus!
