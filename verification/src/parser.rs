//! Dart source files: which paths are sources to analyze.

use crate::paths::{extension, path_extension};
use crate::text::{chars_of, contains, contains_chars, str_eq};
use vstd::prelude::*;

verus! {

/// A source file: its path and its text.
#[derive(Debug)]
pub struct DartFile {
    pub path: String,
    pub content: String,
}

/// Whether a path names a Dart source: its extension is `dart`.
pub fn is_dart_file(path: &str) -> (r: bool)
    ensures
        r == (path_extension(path@) == Some("dart"@)),
{
    match extension(path) {
        Some(ext) => str_eq(ext.as_str(), "dart"),
        None => false,
    }
}

/// Whether a path leads through a directory that is left out of the
/// analysis: tool caches, build output and packages.
pub open spec fn is_excluded(path: Seq<char>) -> bool {
    ||| contains(path, "/.dart_tool/"@)
    ||| contains(path, "/build/"@)
    ||| contains(path, "/.pub/"@)
    ||| contains(path, "/packages/"@)
}

/// Whether a path leads through a directory that is left out of the
/// analysis.
pub fn is_excluded_path(path: &str) -> (r: bool)
    ensures
        r == is_excluded(path@),
{
    let chars = chars_of(path);
    contains_chars(chars.as_slice(), chars_of("/.dart_tool/").as_slice()) || contains_chars(
        chars.as_slice(),
        chars_of("/build/").as_slice(),
    ) || contains_chars(chars.as_slice(), chars_of("/.pub/").as_slice()) || contains_chars(
        chars.as_slice(),
        chars_of("/packages/").as_slice(),
    )
}

/// Whether the file at `path` is analyzed.
pub open spec fn is_source(path: Seq<char>) -> bool {
    path_extension(path) == Some("dart"@) && !is_excluded(path)
}

/// The sources among the first `upto` of `paths`, in order.
pub open spec fn sources_among(paths: Seq<Seq<char>>, upto: int) -> Seq<Seq<char>>
    decreases upto,
{
    if upto <= 0 {
        Seq::empty()
    } else if is_source(paths[upto - 1]) {
        sources_among(paths, upto - 1).push(paths[upto - 1])
    } else {
        sources_among(paths, upto - 1)
    }
}

/// Picks the files to analyze among the regular files found under a root
/// directory: the Dart sources outside the excluded directories, in the
/// order in which they were found.
pub fn find_dart_files(candidates: &Vec<String>) -> (found: Vec<String>)
    ensures
        found.deep_view() == sources_among(candidates.deep_view(), candidates@.len() as int),
{
    let mut found: Vec<String> = Vec::new();
    let mut i: usize = 0;
    assert(found.deep_view() =~= Seq::<Seq<char>>::empty());
    while i < candidates.len()
        invariant
            i <= candidates@.len(),
            found.deep_view() == sources_among(candidates.deep_view(), i as int),
        decreases candidates@.len() - i,
    {
        let path = candidates[i].as_str();
        assert(path@ == candidates.deep_view()[i as int]);
        if is_dart_file(path) && !is_excluded_path(path) {
            let ghost so_far = found.deep_view();
            found.push(candidates[i].clone());
            assert(found.deep_view() =~= so_far.push(path@));
        }
        i += 1;
    }
    found
}

} // verus!
