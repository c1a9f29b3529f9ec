//! The diagnostics of the last workspace scan, by file path.

use crate::error::{Diagnostic, DiagnosticView};
use vstd::hash_map::StringHashMap;
use vstd::prelude::*;

verus! {

/// What a map from paths to lists of diagnostics holds.
pub open spec fn diagnostics_map(m: Map<Seq<char>, Vec<Diagnostic>>) -> Map<
    Seq<char>,
    Seq<DiagnosticView>,
> {
    m.map_values(|v: Vec<Diagnostic>| v.deep_view())
}

/// A snapshot of diagnostics by file path. It is replaced as a whole: a
/// reader sees the snapshot before a replacement or the one after it.
pub struct DiagnosticsCache {
    entries: StringHashMap<Vec<Diagnostic>>,
}

impl View for DiagnosticsCache {
    type V = Map<Seq<char>, Seq<DiagnosticView>>;

    closed spec fn view(&self) -> Map<Seq<char>, Seq<DiagnosticView>> {
        diagnostics_map(self.entries@)
    }
}

impl DiagnosticsCache {
    /// The empty cache.
    pub fn new() -> (r: Self)
        ensures
            r@ == Map::<Seq<char>, Seq<DiagnosticView>>::empty(),
    {
        let r = DiagnosticsCache { entries: StringHashMap::new() };
        assert(r@ =~= Map::<Seq<char>, Seq<DiagnosticView>>::empty());
        r
    }

    /// Puts `new_map` in the place of everything the cache held.
    pub fn replace(&mut self, new_map: StringHashMap<Vec<Diagnostic>>)
        ensures
            final(self)@ == diagnostics_map(new_map@),
    {
        self.entries = new_map;
    }

    /// The diagnostics recorded for exactly the path `file_path`.
    pub fn lookup(&self, file_path: &str) -> (r: Option<&Vec<Diagnostic>>)
        ensures
            match r {
                Some(list) => self@.contains_key(file_path@) && list.deep_view()
                    == self@[file_path@],
                None => !self@.contains_key(file_path@),
            },
    {
        self.entries.get(file_path)
    }

    /// The number of files with diagnostics.
    pub fn len(&self) -> (n: usize)
        ensures
            n == self@.len(),
    {
        proof {
            lemma_diagnostics_map_len(self.entries@);
        }
        self.entries.len()
    }
}

/// A map of diagnostics has as many entries as the map it was made from.
pub proof fn lemma_diagnostics_map_len(m: Map<Seq<char>, Vec<Diagnostic>>)
    ensures
        diagnostics_map(m).dom() == m.dom(),
        diagnostics_map(m).len() == m.len(),
{
    assert(diagnostics_map(m).dom() =~= m.dom());
}

/// What is done to a cache: a reader looks a path up, or the scanner puts
/// a new snapshot in the place of the old one.
pub ghost enum CacheOp {
    Lookup(Seq<char>),
    Replace(Map<Seq<char>, Seq<DiagnosticView>>),
}

/// What a cache that held `start` holds after the first `upto` of `ops`,
/// carried out one after the other.
pub open spec fn state_after(
    start: Map<Seq<char>, Seq<DiagnosticView>>,
    ops: Seq<CacheOp>,
    upto: int,
) -> Map<Seq<char>, Seq<DiagnosticView>>
    decreases upto,
{
    if upto <= 0 {
        start
    } else {
        match ops[upto - 1] {
            CacheOp::Replace(snapshot) => snapshot,
            CacheOp::Lookup(_) => state_after(start, ops, upto - 1),
        }
    }
}

/// In whatever order lookups and replacements by one new snapshot are
/// carried out, a reader finds the old snapshot or the new one as a whole,
/// never parts of both. The lock around the cache makes every run of
/// readers and scanner such an order.
pub proof fn lemma_readers_see_whole_snapshots(
    start: Map<Seq<char>, Seq<DiagnosticView>>,
    new: Map<Seq<char>, Seq<DiagnosticView>>,
    ops: Seq<CacheOp>,
    upto: int,
)
    requires
        0 <= upto <= ops.len(),
        forall|i: int|
            0 <= i < ops.len() && (#[trigger] ops[i]) is Replace ==> ops[i] == CacheOp::Replace(
                new,
            ),
    ensures
        state_after(start, ops, upto) == start || state_after(start, ops, upto) == new,
    decreases upto,
{
    if upto > 0 {
        lemma_readers_see_whole_snapshots(start, new, ops, upto - 1);
    }
}

/// The snapshot that the first `upto` of `entries` make: each path with
/// its diagnostics, a later entry in the place of an earlier one with the
/// same path.
pub open spec fn snapshot_from(entries: Seq<(String, Vec<Diagnostic>)>, upto: int) -> Map<
    Seq<char>,
    Seq<DiagnosticView>,
>
    decreases upto,
{
    if upto <= 0 {
        Map::empty()
    } else {
        snapshot_from(entries, upto - 1).insert(
            entries[upto - 1].0@,
            entries[upto - 1].1.deep_view(),
        )
    }
}

/// Makes a snapshot of paths with their diagnostics.
pub fn snapshot_of(entries: Vec<(String, Vec<Diagnostic>)>) -> (found: StringHashMap<
    Vec<Diagnostic>,
>)
    ensures
        diagnostics_map(found@) == snapshot_from(entries@, entries@.len() as int),
{
    let mut entries = entries;
    let ghost whole = entries@;
    let mut found: StringHashMap<Vec<Diagnostic>> = StringHashMap::new();
    assert(diagnostics_map(found@) =~= snapshot_from(whole, 0));
    let n = entries.len();
    let mut i: usize = 0;
    while i < n
        invariant
            i <= n,
            n == entries@.len(),
            n == whole.len(),
            forall|k: int| i <= k < n ==> #[trigger] entries@[k] == whole[k],
            diagnostics_map(found@) == snapshot_from(whole, i as int),
        decreases n - i,
    {
        let mut entry: (String, Vec<Diagnostic>) = (String::new(), Vec::new());
        std::mem::swap(&mut entry, &mut entries[i]);
        assert(entry == whole[i as int]);
        let ghost before = found@;
        let ghost views = entry.1.deep_view();
        let ghost path = entry.0@;
        found.insert(entry.0, entry.1);
        assert(diagnostics_map(found@) =~= diagnostics_map(before).insert(path, views));
        i += 1;
    }
    found
}

} // verus!
