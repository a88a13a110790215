//! Paths as text: what `std::path` and the `pathdiff` crate make of them.
//! Nothing here looks at the file system.

use vstd::prelude::*;

verus! {

/// The path that leads from the directory `base` to `path`, as
/// `pathdiff::diff_paths` constructs it from the components of the two
/// paths; `None` where it constructs none.
pub uninterp spec fn relative_path(path: Seq<char>, base: Seq<char>) -> Option<Seq<char>>;

/// The path `base` with `path` adjoined, as `std::path::Path::join` makes it.
pub uninterp spec fn joined_path(base: Seq<char>, path: Seq<char>) -> Seq<char>;

/// The final component of a path, as `std::path::Path::file_name` gives it;
/// `None` where the path has none.
pub uninterp spec fn final_component(path: Seq<char>) -> Option<Seq<char>>;

/// Whether the components of `child` are the last components of `path`, as
/// `std::path::Path::ends_with` decides it.
pub uninterp spec fn path_suffix(path: Seq<char>, child: Seq<char>) -> bool;

/// The text of an optional string.
pub open spec fn text_of(s: Option<String>) -> Option<Seq<char>> {
    match s {
        Some(t) => Some(t@),
        None => None,
    }
}

/// `pathdiff::diff_paths` on two paths given as strings, the result turned
/// into a string again. The result is taken to depend on the two paths
/// alone: the function looks at their components and never at the file
/// system. Nothing is claimed about what the relative path is.
#[verifier::external_body]
pub(crate) fn diff_paths(path: &str, base: &str) -> (relative: Option<String>)
    ensures
        text_of(relative) == relative_path(path@, base@),
{
    match pathdiff::diff_paths(path, base) {
        Some(p) => Some(p.to_string_lossy().to_string()),
        None => None,
    }
}

/// `std::path::Path::join` on two paths given as strings, the result
/// turned into a string again. The result is taken to depend on the two
/// paths alone; nothing is claimed about what it is.
#[verifier::external_body]
pub(crate) fn join_path(base: &str, path: &str) -> (joined: String)
    ensures
        joined@ == joined_path(base@, path@),
{
    std::path::Path::new(base).join(path).to_string_lossy().into_owned()
}

/// `std::path::Path::file_name` on a path given as a string, the result
/// turned into a string. The result is taken to depend on the path alone;
/// nothing is claimed about what it is.
#[verifier::external_body]
pub(crate) fn file_name(path: &str) -> (name: Option<String>)
    ensures
        text_of(name) == final_component(path@),
{
    match std::path::Path::new(path).file_name() {
        Some(name) => Some(name.to_string_lossy().into_owned()),
        None => None,
    }
}

/// `std::path::Path::ends_with` on two paths given as strings. The result
/// is taken to depend on the two paths alone; nothing is claimed about
/// which paths end with which.
#[verifier::external_body]
pub(crate) fn ends_with(path: &str, child: &str) -> (b: bool)
    ensures
        b == path_suffix(path@, child@),
{
    std::path::Path::new(path).ends_with(child)
}

} // verus!
