//! Regular expressions, as the `regex` crate compiles and matches them.
//!
//! A compiled expression is opaque here. The functions below hand the
//! crate's searches on; what a search returns is a function of the pattern
//! and of the text searched, and is told by the names declared here.

use vstd::prelude::*;
use vstd::utf8::encode_utf8;

verus! {

/// `regex::Regex`, a compiled expression. Nothing inside it is seen here.
#[verifier::external_type_specification]
#[verifier::external_body]
pub struct ExRegex(regex::Regex);

/// `regex::Error`, why a pattern could not be compiled. It is only passed
/// on.
#[verifier::external_type_specification]
#[verifier::external_body]
pub struct ExRegexError(regex::Error);

/// The pattern that `re` was compiled from.
pub uninterp spec fn regex_source(re: regex::Regex) -> Seq<char>;

/// Whether `Regex::new` accepts `pattern`.
pub uninterp spec fn regex_compiles(pattern: Seq<char>) -> bool;

/// The leftmost match of `pattern` in `text` that `Regex::find` returns, by
/// the byte offsets of its start and its end.
pub uninterp spec fn regex_find(pattern: Seq<char>, text: Seq<char>) -> Option<(usize, usize)>;

/// The successive matches of `pattern` in `text` that `Regex::find_iter`
/// yields, each by the byte offsets of its start and its end.
pub uninterp spec fn regex_find_all(pattern: Seq<char>, text: Seq<char>) -> Seq<(usize, usize)>;

/// The groups of the leftmost match of `pattern` in `text` that
/// `Regex::captures` returns, the whole match first: for each group that
/// took part in the match the byte offsets of its start and its end, and the
/// text it matched.
pub uninterp spec fn regex_captures(pattern: Seq<char>, text: Seq<char>) -> Option<
    Seq<Option<(usize, usize, Seq<char>)>>,
>;

/// `Regex::new`: the compiled expression, which remembers its pattern, or
/// the crate's error.
#[verifier::external_body]
pub(crate) fn regex_new(pattern: &str) -> (r: Result<regex::Regex, regex::Error>)
    ensures
        match r {
            Ok(re) => regex_compiles(pattern@) && regex_source(re) == pattern@,
            Err(_) => !regex_compiles(pattern@),
        },
{
    regex::Regex::new(pattern)
}

/// `Regex::find`: the offsets of the leftmost match. A match starts no
/// later than it ends, and ends within the text.
#[verifier::external_body]
pub(crate) fn find_first(re: &regex::Regex, text: &str) -> (r: Option<(usize, usize)>)
    ensures
        r == regex_find(regex_source(*re), text@),
        r matches Some(span) ==> span.0 <= span.1 <= encode_utf8(text@).len(),
{
    re.find(text).map(|m| (m.start(), m.end()))
}

/// `Regex::find_iter`: the offsets of the successive matches. A match
/// starts no later than it ends, and ends within the text.
#[verifier::external_body]
pub(crate) fn find_all(re: &regex::Regex, text: &str) -> (r: Vec<(usize, usize)>)
    ensures
        r@ == regex_find_all(regex_source(*re), text@),
        forall|i: int|
            0 <= i < r@.len() ==> (#[trigger] r@[i]).0 <= r@[i].1 <= encode_utf8(text@).len(),
{
    re.find_iter(text).map(|m| (m.start(), m.end())).collect()
}

/// `Regex::captures`: offsets and text of each group of the leftmost
/// match. A group starts no later than it ends, and ends within the text.
#[verifier::external_body]
pub(crate) fn captures(re: &regex::Regex, text: &str) -> (r: Option<
    Vec<Option<(usize, usize, String)>>,
>)
    ensures
        r.deep_view() == regex_captures(regex_source(*re), text@),
        r matches Some(groups) ==> forall|i: int|
            0 <= i < groups@.len() ==> ((#[trigger] groups@[i]) matches Some(g) ==> g.0 <= g.1
                <= encode_utf8(text@).len()),
{
    re.captures(text).map(
        |c| c.iter().map(|g| g.map(|m| (m.start(), m.end(), m.as_str().to_owned()))).collect(),
    )
}

} // verus!
