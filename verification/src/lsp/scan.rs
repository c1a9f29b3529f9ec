//! The workspace scan: every rule on every file, and the diagnostics by
//! file.

use crate::analyzer::Rule;
use crate::error::{Diagnostic, DiagnosticView};
use crate::lsp::cache::diagnostics_map;
use crate::parser::DartFile;
use vstd::hash_map::StringHashMap;
use vstd::prelude::*;
use vstd::utf8::encode_utf8;

verus! {

/// What the first `upto` of `rules` find in one file, rule after rule. A
/// rule whose check fails counts as one that finds nothing.
pub open spec fn file_findings<R: Rule>(
    rules: Seq<R>,
    path: Seq<char>,
    content: Seq<char>,
    upto: int,
) -> Seq<DiagnosticView>
    decreases upto,
{
    if upto <= 0 {
        Seq::empty()
    } else {
        file_findings(rules, path, content, upto - 1) + (match rules[upto - 1].findings(
            path,
            content,
        ) {
            Some(list) => list,
            None => Seq::empty(),
        })
    }
}

/// The diagnostics by path for the first `upto` of `files`. A file in
/// which no rule finds anything has no entry; of two files with one path
/// the later one counts.
pub open spec fn scan_result<R: Rule>(rules: Seq<R>, files: Seq<DartFile>, upto: int) -> Map<
    Seq<char>,
    Seq<DiagnosticView>,
>
    decreases upto,
{
    if upto <= 0 {
        Map::empty()
    } else {
        let before = scan_result(rules, files, upto - 1);
        let file = files[upto - 1];
        let found = file_findings(rules, file.path@, file.content@, rules.len() as int);
        if found.len() > 0 {
            before.insert(file.path@, found)
        } else {
            before
        }
    }
}

/// Whether every one of `files` is short enough to be checked.
pub open spec fn checkable(files: Seq<DartFile>) -> bool {
    forall|i: int|
        0 <= i < files.len() ==> encode_utf8((#[trigger] files[i]).content@).len() < usize::MAX
}

/// Runs every rule on one file and collects what they find, rule after
/// rule. A rule whose check fails is passed over.
pub fn check_file<R: Rule>(rules: &Vec<R>, file_path: &str, content: &str) -> (out: Vec<Diagnostic>)
    requires
        encode_utf8(content@).len() < usize::MAX,
    ensures
        out.deep_view() == file_findings(rules@, file_path@, content@, rules@.len() as int),
{
    let mut out: Vec<Diagnostic> = Vec::new();
    let mut i: usize = 0;
    assert(out.deep_view() =~= Seq::<DiagnosticView>::empty());
    while i < rules.len()
        invariant
            i <= rules@.len(),
            encode_utf8(content@).len() < usize::MAX,
            out.deep_view() == file_findings(rules@, file_path@, content@, i as int),
        decreases rules@.len() - i,
    {
        match rules[i].check(file_path, content) {
            Ok(list) => {
                let mut list = list;
                let ghost so_far = out.deep_view();
                let ghost found = list.deep_view();
                out.append(&mut list);
                assert(out.deep_view() =~= so_far + found);
            },
            Err(_) => {
                assert(out.deep_view() + Seq::<DiagnosticView>::empty() =~= out.deep_view());
            },
        }
        i += 1;
    }
    out
}

/// Scans the files of a workspace: the diagnostics of every file in which
/// a rule finds something, by the file's path.
pub fn analyze_workspace<R: Rule>(files: &Vec<DartFile>, rules: &Vec<R>) -> (found: StringHashMap<
    Vec<Diagnostic>,
>)
    requires
        checkable(files@),
    ensures
        diagnostics_map(found@) == scan_result(rules@, files@, files@.len() as int),
{
    let mut found: StringHashMap<Vec<Diagnostic>> = StringHashMap::new();
    let mut i: usize = 0;
    assert(diagnostics_map(found@) =~= Map::<Seq<char>, Seq<DiagnosticView>>::empty());
    while i < files.len()
        invariant
            i <= files@.len(),
            checkable(files@),
            diagnostics_map(found@) == scan_result(rules@, files@, i as int),
        decreases files@.len() - i,
    {
        let file = &files[i];
        let list = check_file(rules, file.path.as_str(), file.content.as_str());
        if list.len() > 0 {
            let ghost before = found@;
            let ghost views = list.deep_view();
            found.insert(file.path.clone(), list);
            assert(diagnostics_map(found@) =~= diagnostics_map(before).insert(file.path@, views));
        }
        i += 1;
    }
    found
}

} // verus!
