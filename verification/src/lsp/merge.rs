//! Merging cached diagnostics into the diagnostics that the server
//! publishes for a file.

use crate::error::{Diagnostic, DiagnosticView, Severity};
use crate::json::{
    json_as_array_mut, json_as_str, json_from_string, json_from_usize, json_get, json_get_mut,
    json_object, json_object2, json_view, json_views, lemma_members_of, member, members_of,
    with_member, Json,
};
use crate::lsp::cache::DiagnosticsCache;
use crate::text::{chars_of, starts_with_at, str_eq, string_of, string_of_all};
use vstd::prelude::*;

verus! {

/// The number by which the protocol knows a severity.
pub open spec fn severity_code(s: Severity) -> int {
    match s {
        Severity::Error => 1,
        Severity::Warning => 2,
        Severity::Info => 3,
    }
}

/// A position of the protocol. Its lines and characters count from zero.
pub open spec fn lsp_position(line: int, character: int) -> Json {
    Json::Object(map!["line"@ => Json::Number(line), "character"@ => Json::Number(character)])
}

/// One less than `n`, and zero for zero.
pub open spec fn zero_based(n: usize) -> int {
    if n == 0 {
        0
    } else {
        n - 1
    }
}

/// The range of the protocol for a diagnostic that is located at
/// `line` and `column`, both counted from one: one character wide.
pub open spec fn lsp_range(line: usize, column: usize) -> Json {
    Json::Object(
        map![
            "start"@ => lsp_position(zero_based(line), zero_based(column)),
            "end"@ => lsp_position(zero_based(line), zero_based(column) + 1),
        ],
    )
}

/// The diagnostic of the protocol that stands for `d`.
pub open spec fn lsp_diagnostic(d: DiagnosticView) -> Json {
    Json::Object(
        map![
            "range"@ => lsp_range(d.location.line, d.location.column),
            "severity"@ => Json::Number(severity_code(d.severity)),
            "code"@ => Json::Str(d.rule_id),
            "source"@ => Json::Str("dart-re-analyzer"@),
            "message"@ => Json::Str(d.message),
        ],
    )
}

/// The diagnostics of the protocol that stand for `list`, in order.
pub open spec fn lsp_diagnostics(list: Seq<DiagnosticView>) -> Seq<Json> {
    list.map_values(|d: DiagnosticView| lsp_diagnostic(d))
}

/// The scheme prefix of a file URI: `file://`.
pub open spec fn file_scheme() -> Seq<char> {
    seq!['f', 'i', 'l', 'e', ':', '/', '/']
}

/// The path that a URI names: the URI without the file scheme where it has
/// it, else the URI as it is. Nothing is decoded or normalized.
pub open spec fn uri_path(uri: Seq<char>) -> Seq<char> {
    if file_scheme().is_prefix_of(uri) {
        uri.skip(file_scheme().len() as int)
    } else {
        uri
    }
}

/// The method that a message names, if it names one by a string.
pub open spec fn method_of(doc: Json) -> Option<Seq<char>> {
    match member(doc, "method"@) {
        Some(Json::Str(s)) => Some(s),
        _ => None,
    }
}

/// The path of the file in a message that publishes diagnostics: the
/// parameters' URI, as a path.
pub open spec fn publish_path(doc: Json) -> Option<Seq<char>> {
    if method_of(doc) == Some("textDocument/publishDiagnostics"@) {
        match member(doc, "params"@) {
            Some(params) => match member(params, "uri"@) {
                Some(Json::Str(uri)) => Some(uri_path(uri)),
                _ => None,
            },
            None => None,
        }
    } else {
        None
    }
}

/// The list of diagnostics that a message publishes.
pub open spec fn published(doc: Json) -> Option<Seq<Json>> {
    match member(doc, "params"@) {
        Some(params) => match member(params, "diagnostics"@) {
            Some(Json::Array(items)) => Some(items),
            _ => None,
        },
        None => None,
    }
}

/// Whether diagnostics of `cache` are merged into `doc`: the message
/// publishes a list of diagnostics for a file that the cache knows.
pub open spec fn merges(doc: Json, cache: Map<Seq<char>, Seq<DiagnosticView>>) -> bool {
    &&& publish_path(doc) is Some
    &&& cache.contains_key(publish_path(doc)->0)
    &&& published(doc) is Some
}

/// The message `doc` after the merge: where diagnostics are merged, the
/// cached ones of the file follow those that the message had; every other
/// message is unchanged.
pub open spec fn merge(doc: Json, cache: Map<Seq<char>, Seq<DiagnosticView>>) -> Json {
    if merges(doc, cache) {
        let params = member(doc, "params"@)->0;
        let items = published(doc)->0 + lsp_diagnostics(cache[publish_path(doc)->0]);
        with_member(doc, "params"@, with_member(params, "diagnostics"@, Json::Array(items)))
    } else {
        doc
    }
}

/// The protocol's number for a severity: 1 for an error, 2 for a warning,
/// 3 for an information.
pub fn severity_to_lsp(s: Severity) -> (code: usize)
    ensures
        code == severity_code(s),
{
    match s {
        Severity::Error => 1,
        Severity::Warning => 2,
        Severity::Info => 3,
    }
}

/// A position of the protocol.
fn position_to_lsp(line: usize, character: usize) -> (r: serde_json::Value)
    ensures
        json_view(r) == lsp_position(line as int, character as int),
{
    proof {
        reveal_strlit("line");
        reveal_strlit("character");
        assert("line"@.len() == 4 && "character"@.len() == 9);
    }
    json_object2("line", json_from_usize(line), "character", json_from_usize(character))
}

/// Converts a diagnostic to the protocol's form: the location counted from
/// zero and one character wide, the severity as a number, the rule as the
/// code, and this tool as the source.
pub fn diagnostic_to_lsp(diag: &Diagnostic) -> (r: serde_json::Value)
    ensures
        json_view(r) == lsp_diagnostic(diag@),
{
    let line = diag.location.line.saturating_sub(1);
    let character = diag.location.column.saturating_sub(1);
    proof {
        reveal_strlit("start");
        reveal_strlit("end");
        reveal_strlit("range");
        reveal_strlit("severity");
        reveal_strlit("code");
        reveal_strlit("source");
        reveal_strlit("message");
        assert("start"@.len() == 5 && "end"@.len() == 3);
        assert("range"@.len() == 5 && "severity"@.len() == 8 && "code"@.len() == 4);
        assert("source"@.len() == 6 && "message"@.len() == 7);
    }
    let range = json_object2(
        "start",
        position_to_lsp(line, character),
        "end",
        position_to_lsp(line, character + 1),
    );
    let mut entries: Vec<(String, serde_json::Value)> = Vec::new();
    entries.push(("range".to_owned(), range));
    entries.push(("severity".to_owned(), json_from_usize(severity_to_lsp(diag.severity))));
    entries.push(("code".to_owned(), json_from_string(diag.rule_id.clone())));
    entries.push(("source".to_owned(), json_from_string("dart-re-analyzer".to_owned())));
    entries.push(("message".to_owned(), json_from_string(diag.message.clone())));
    proof {
        lemma_members_of(entries@, 0);
        lemma_members_of(entries@, 1);
        lemma_members_of(entries@, 2);
        lemma_members_of(entries@, 3);
        lemma_members_of(entries@, 4);
        assert(members_of(entries@) =~= map![
            "range"@ => lsp_range(diag.location.line, diag.location.column),
            "severity"@ => Json::Number(severity_code(diag.severity)),
            "code"@ => Json::Str(diag.rule_id@),
            "source"@ => Json::Str("dart-re-analyzer"@),
            "message"@ => Json::Str(diag.message@),
        ]);
    }
    json_object(entries)
}

/// Appends the protocol's form of each of `ours` to `items`.
pub fn append_converted(items: &mut Vec<serde_json::Value>, ours: &Vec<Diagnostic>)
    ensures
        json_views(final(items)@) == json_views(old(items)@) + lsp_diagnostics(ours.deep_view()),
{
    let mut i: usize = 0;
    while i < ours.len()
        invariant
            i <= ours@.len(),
            json_views(items@) == json_views(old(items)@) + lsp_diagnostics(
                ours.deep_view().take(i as int),
            ),
        decreases ours@.len() - i,
    {
        let converted = diagnostic_to_lsp(&ours[i]);
        let ghost prev = items@;
        items.push(converted);
        proof {
            assert(json_views(items@) =~= json_views(prev).push(json_view(converted)));
            let before = ours.deep_view().take(i as int);
            let after = ours.deep_view().take(i + 1);
            assert(after =~= before.push(ours@[i as int]@));
            assert(lsp_diagnostics(after) =~= lsp_diagnostics(before).push(
                lsp_diagnostic(ours@[i as int]@),
            ));
            assert(json_views(items@) =~= json_views(old(items)@) + lsp_diagnostics(after));
        }
        i += 1;
    }
    assert(ours.deep_view().take(i as int) =~= ours.deep_view());
}

/// The path that `uri` names.
pub fn path_of_uri(uri: &str) -> (path: String)
    ensures
        path@ == uri_path(uri@),
{
    let chars = chars_of(uri);
    let scheme = vec!['f', 'i', 'l', 'e', ':', '/', '/'];
    assert(scheme@ =~= file_scheme());
    assert(chars@.subrange(0, chars@.len() as int) =~= chars@);
    if starts_with_at(chars.as_slice(), 0, chars.len(), scheme.as_slice()) {
        assert(chars@.skip(7) =~= chars@.subrange(7, chars@.len() as int));
        string_of(chars.as_slice(), 7, chars.len())
    } else {
        string_of_all(chars.as_slice())
    }
}

/// The method that `message` names.
pub fn message_method<'a>(message: &'a serde_json::Value) -> (r: Option<&'a str>)
    ensures
        match r {
            Some(s) => method_of(json_view(*message)) == Some(s@),
            None => method_of(json_view(*message)) is None,
        },
{
    match json_get(message, "method") {
        Some(m) => json_as_str(m),
        None => None,
    }
}

/// Merges the cached diagnostics into a message of the server, in place.
/// Where the message publishes diagnostics for a file that `cache` knows,
/// the cached diagnostics are appended to the message's own, which stay;
/// any other message keeps what it holds. Returns whether it merged.
pub fn inject_diagnostics(message: &mut serde_json::Value, cache: &DiagnosticsCache) -> (merged:
    bool)
    ensures
        merged == merges(json_view(*old(message)), cache@),
        json_view(*final(message)) == merge(json_view(*old(message)), cache@),
{
    let ghost doc = json_view(*message);
    let is_publish = match message_method(message) {
        Some(s) => str_eq(s, "textDocument/publishDiagnostics"),
        None => false,
    };
    if !is_publish {
        return false;
    }
    match json_get_mut(message, "params") {
        None => false,
        Some(params) => {
            let ghost params_doc = json_view(*params);
            proof {
                lemma_same_member(doc, "params"@);
            }
            let path: Option<String> = match json_get(params, "uri") {
                Some(u) => match json_as_str(u) {
                    Some(s) => Some(path_of_uri(s)),
                    None => None,
                },
                None => None,
            };
            match path {
                None => false,
                Some(p) => match cache.lookup(p.as_str()) {
                    None => false,
                    Some(ours) => match json_get_mut(params, "diagnostics") {
                        None => false,
                        Some(list) => {
                            proof {
                                lemma_same_member(params_doc, "diagnostics"@);
                            }
                            match json_as_array_mut(list) {
                                None => false,
                                Some(items) => {
                                    append_converted(items, ours);
                                    true
                                },
                            }
                        },
                    },
                },
            }
        },
    }
}

/// Where diagnostics are merged into a message, the message publishes the
/// diagnostics it had, in their order, and after them those of the cache for
/// its file; it still names the same method and the same file.
pub proof fn lemma_merge_appends(doc: Json, cache: Map<Seq<char>, Seq<DiagnosticView>>)
    requires
        merges(doc, cache),
    ensures
        published(merge(doc, cache)) == Some(
            published(doc)->0 + lsp_diagnostics(cache[publish_path(doc)->0]),
        ),
        method_of(merge(doc, cache)) == method_of(doc),
        publish_path(merge(doc, cache)) == publish_path(doc),
{
    reveal_strlit("method");
    reveal_strlit("params");
    reveal_strlit("uri");
    reveal_strlit("diagnostics");
    assert("method"@.len() == 6 && "params"@.len() == 6 && "uri"@.len() == 3 && "diagnostics"@.len()
        == 11);
    assert("method"@[0] == 'm' && "params"@[0] == 'p');
}

/// Putting a member back where it is changes nothing.
pub proof fn lemma_same_member(doc: Json, key: Seq<char>)
    requires
        member(doc, key) is Some,
    ensures
        with_member(doc, key, member(doc, key)->0) == doc,
{
    match doc {
        Json::Object(m) => {
            assert(m.insert(key, m[key]) =~= m);
        },
        _ => {},
    }
}

} // verus!
