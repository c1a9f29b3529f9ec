//! Parts of a file path, as `std::path::Path` tells them for the path
//! syntax of the platform.

use vstd::prelude::*;

verus! {

/// The stem of the file name of `path` that `Path::file_stem` returns: the
/// file name without its extension.
pub uninterp spec fn path_file_stem(path: Seq<char>) -> Option<Seq<char>>;

/// The extension of the file name of `path` that `Path::extension`
/// returns: what follows the last dot of the file name, without the dot.
pub uninterp spec fn path_extension(path: Seq<char>) -> Option<Seq<char>>;

/// `Path::file_stem` of the standard library, for a path given as text.
#[verifier::external_body]
pub(crate) fn file_stem(path: &str) -> (r: Option<String>)
    ensures
        r.deep_view() == path_file_stem(path@),
{
    std::path::Path::new(path).file_stem().and_then(|s| s.to_str()).map(|s| s.to_owned())
}

/// `Path::extension` of the standard library, for a path given as text.
#[verifier::external_body]
pub(crate) fn extension(path: &str) -> (r: Option<String>)
    ensures
        r.deep_view() == path_extension(path@),
{
    std::path::Path::new(path).extension().and_then(|s| s.to_str()).map(|s| s.to_owned())
}

} // verus!
