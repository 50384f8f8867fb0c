//! Paths are held as text. What the standard library makes of a path's text on
//! the platform that the recorder runs on is named here, not restated: the
//! contracts of the library speak of these names.

use vstd::prelude::*;

verus! {

/// The final component of `path`, as `std::path::Path::file_name` gives it.
pub uninterp spec fn file_name_of(path: Seq<char>) -> Option<Seq<char>>;

/// `path` without its final component, as `std::path::Path::parent` gives it.
pub uninterp spec fn parent_of(path: Seq<char>) -> Option<Seq<char>>;

/// Whether `a` and `b` are the same path, as the equality of `std::path::Path` decides it.
pub uninterp spec fn same_path(a: Seq<char>, b: Seq<char>) -> bool;

/// `std::path::Path::file_name`: trusted to be a function of the path's text
/// alone, which `file_name_of` names.
#[verifier::external_body]
pub(crate) fn file_name(path: &str) -> (name: Option<String>)
    ensures
        name.deep_view() == file_name_of(path@),
{
    std::path::Path::new(path).file_name().map(|name| name.to_string_lossy().into_owned())
}

/// `std::path::Path::parent`: trusted to be a function of the path's text
/// alone, which `parent_of` names.
#[verifier::external_body]
pub(crate) fn parent(path: &str) -> (dir: Option<String>)
    ensures
        dir.deep_view() == parent_of(path@),
{
    std::path::Path::new(path).parent().map(|dir| dir.to_string_lossy().into_owned())
}

/// The equality of `std::path::Path`: trusted to be a function of the two
/// paths' texts alone, which `same_path` names.
#[verifier::external_body]
pub(crate) fn paths_equal(a: &str, b: &str) -> (same: bool)
    ensures
        same == same_path(a@, b@),
{
    std::path::Path::new(a) == std::path::Path::new(b)
}

/// The final component of `path` without its extension, as
/// `std::path::Path::file_stem` gives it.
pub uninterp spec fn file_stem_of(path: Seq<char>) -> Option<Seq<char>>;

/// The extension of the final component of `path`, as
/// `std::path::Path::extension` gives it.
pub uninterp spec fn extension_of(path: Seq<char>) -> Option<Seq<char>>;

/// `name` below the directory `dir`, as `std::path::Path::join` gives it.
pub uninterp spec fn joined_path(dir: Seq<char>, name: Seq<char>) -> Seq<char>;

/// `path` with its final component replaced by `name`, as
/// `std::path::Path::with_file_name` gives it.
pub uninterp spec fn with_file_name_of(path: Seq<char>, name: Seq<char>) -> Seq<char>;

/// `std::path::Path::file_stem`: trusted to be a function of the path's text
/// alone, which `file_stem_of` names.
#[verifier::external_body]
pub(crate) fn file_stem(path: &str) -> (stem: Option<String>)
    ensures
        stem.deep_view() == file_stem_of(path@),
{
    std::path::Path::new(path).file_stem().map(|stem| stem.to_string_lossy().into_owned())
}

/// `std::path::Path::extension`: trusted to be a function of the path's text
/// alone, which `extension_of` names.
#[verifier::external_body]
pub(crate) fn extension(path: &str) -> (ext: Option<String>)
    ensures
        ext.deep_view() == extension_of(path@),
{
    std::path::Path::new(path).extension().map(|ext| ext.to_string_lossy().into_owned())
}

/// `std::path::Path::join`: trusted to be a function of the two texts alone,
/// which `joined_path` names.
#[verifier::external_body]
pub(crate) fn join(dir: &str, name: &str) -> (path: String)
    ensures
        path@ == joined_path(dir@, name@),
{
    std::path::Path::new(dir).join(name).to_string_lossy().into_owned()
}

/// `std::path::Path::with_file_name`: trusted to be a function of the two texts
/// alone, which `with_file_name_of` names.
#[verifier::external_body]
pub(crate) fn with_file_name(path: &str, name: &str) -> (replaced: String)
    ensures
        replaced@ == with_file_name_of(path@, name@),
{
    std::path::Path::new(path).with_file_name(name).to_string_lossy().into_owned()
}


} // verus!
