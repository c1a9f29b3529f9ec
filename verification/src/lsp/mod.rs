//! The proxy between an editor and the Dart language server: what it
//! decides for each message that passes through it.

pub mod cache;
pub mod client;
pub mod framing;
pub mod merge;
pub mod scan;
pub mod semantic;

use crate::config::AnalyzerConfig;
use crate::error::{Diagnostic, DiagnosticView};
use crate::json::{json_parse, json_text, json_to_string, json_view, parse_json};
use crate::lsp::cache::{diagnostics_map, DiagnosticsCache};
use crate::lsp::merge::{inject_diagnostics, merge, merges, message_method, method_of};
use crate::lsp::scan::{analyze_workspace, checkable, scan_result};
use crate::parser::DartFile;
use crate::rules::{are_runtime_rules, are_style_rules, get_all_rules, BuiltinRule};
use crate::text::str_eq;
use vstd::hash_map::StringHashMap;
use vstd::prelude::*;

verus! {

/// Why a message could not be passed on.
#[derive(Debug, Clone, Copy, PartialEq, Eq, Structural)]
pub enum ProxyError {
    /// The message with the merged diagnostics could not be written as JSON.
    Serialize,
}

/// What the proxy does with one message.
#[derive(Debug)]
pub struct Outcome {
    /// The payload to frame and send to the opposite party.
    pub forward: String,
    /// Whether the workspace scan is to be started now.
    pub start_scan: bool,
    /// Whether the message is the client's `initialize` request.
    pub initialize_seen: bool,
}

/// Whether `content` is a message that names `method` as its method.
pub open spec fn has_method(content: Seq<char>, method: Seq<char>) -> bool {
    json_parse(content) matches Some(doc) && method_of(doc) == Some(method)
}

/// Whether `content` is the notification that completes the handshake.
pub open spec fn is_handshake(content: Seq<char>) -> bool {
    has_method(content, "initialized"@)
}

/// Whether `out` is what is passed on to the client for the server's
/// message `content`: the text of the merged message where diagnostics of
/// `cache` are merged into it, and `content` itself in every other case, a
/// payload that is not JSON among them.
pub open spec fn server_forward(
    content: Seq<char>,
    cache: Map<Seq<char>, Seq<DiagnosticView>>,
    out: Seq<char>,
) -> bool {
    match json_parse(content) {
        Some(doc) => if merges(doc, cache) {
            exists|merged: serde_json::Value|
                json_view(merged) == merge(doc, cache) && #[trigger] json_text(merged) == Some(out)
        } else {
            out == content
        },
        None => out == content,
    }
}

/// Whether the merged form of the server's message `content` cannot be
/// written.
pub open spec fn server_forward_fails(
    content: Seq<char>,
    cache: Map<Seq<char>, Seq<DiagnosticView>>,
) -> bool {
    json_parse(content) matches Some(doc) && merges(doc, cache) && exists|
        merged: serde_json::Value,
    |
        json_view(merged) == merge(doc, cache) && #[trigger] json_text(merged) is None
}

/// The number of scans that a session starts while it handles the server's
/// messages `contents` in order, `started` telling whether one was started
/// before.
pub open spec fn scans_started(started: bool, contents: Seq<Seq<char>>) -> nat
    decreases contents.len(),
{
    if contents.len() == 0 {
        0
    } else if is_handshake(contents[0]) && !started {
        1 + scans_started(true, contents.drop_first())
    } else {
        scans_started(started, contents.drop_first())
    }
}

/// A session starts at most one scan, however often the handshake is
/// completed: none once one was started, and exactly one where the
/// handshake is completed for the first time.
pub proof fn lemma_scan_at_most_once(started: bool, contents: Seq<Seq<char>>)
    ensures
        started ==> scans_started(started, contents) == 0,
        !started ==> scans_started(started, contents) == if exists|i: int|
            0 <= i < contents.len() && is_handshake(#[trigger] contents[i]) {
            1nat
        } else {
            0nat
        },
    decreases contents.len(),
{
    if contents.len() > 0 {
        let rest = contents.drop_first();
        lemma_scan_at_most_once(true, rest);
        lemma_scan_at_most_once(started, rest);
        if !started {
            if is_handshake(contents[0]) {
            } else {
                if exists|i: int| 0 <= i < contents.len() && is_handshake(#[trigger] contents[i]) {
                    let i = choose|i: int|
                        0 <= i < contents.len() && is_handshake(#[trigger] contents[i]);
                    assert(is_handshake(rest[i - 1]));
                }
                if exists|i: int| 0 <= i < rest.len() && is_handshake(#[trigger] rest[i]) {
                    let i = choose|i: int| 0 <= i < rest.len() && is_handshake(#[trigger] rest[i]);
                    assert(is_handshake(contents[i + 1]));
                }
            }
        }
    }
}

/// A proxy session: what it was set up with, and whether it started its
/// workspace scan. The server process and the streams belong to the
/// program that runs the session.
pub struct LspProxy {
    /// The program to run as the server; `dart` where none is given.
    pub dart_binary: Option<String>,
    pub config: AnalyzerConfig,
    pub rules: Vec<BuiltinRule>,
    pub workspace_root: String,
    /// Whether the workspace scan was started.
    pub scan_started: bool,
}

impl Clone for LspProxy {
    /// A session that is set up like this one and has started no scan: it
    /// has its own server still to start.
    fn clone(&self) -> (r: Self)
        ensures
            r.dart_binary.deep_view() == self.dart_binary.deep_view(),
            r.config.enabled == self.config.enabled,
            r.config.exclude_patterns.deep_view() == self.config.exclude_patterns.deep_view(),
            r.config.style_rules.enabled == self.config.style_rules.enabled,
            r.config.style_rules.disabled_rules.deep_view()
                == self.config.style_rules.disabled_rules.deep_view(),
            r.config.runtime_rules.enabled == self.config.runtime_rules.enabled,
            r.config.runtime_rules.disabled_rules.deep_view()
                == self.config.runtime_rules.disabled_rules.deep_view(),
            r.config.max_line_length == self.config.max_line_length,
            r.config.parallel == self.config.parallel,
            r.rules@ == self.rules@,
            r.workspace_root@ == self.workspace_root@,
            !r.scan_started,
    {
        let mut rules: Vec<BuiltinRule> = Vec::new();
        let mut i: usize = 0;
        while i < self.rules.len()
            invariant
                i <= self.rules@.len(),
                rules@ == self.rules@.take(i as int),
            decreases self.rules@.len() - i,
        {
            rules.push(self.rules[i]);
            assert(self.rules@.take(i + 1) =~= self.rules@.take(i as int).push(
                self.rules@[i as int],
            ));
            i += 1;
        }
        assert(self.rules@.take(i as int) =~= self.rules@);
        LspProxy {
            dart_binary: match &self.dart_binary {
                Some(b) => Some(b.clone()),
                None => None,
            },
            config: self.config.clone(),
            rules,
            workspace_root: self.workspace_root.clone(),
            scan_started: false,
        }
    }
}

impl LspProxy {
    /// A session with all rules, in which no scan was started yet.
    pub fn new(dart_binary: Option<String>, config: AnalyzerConfig, workspace_root: String) -> (r:
        Self)
        ensures
            r.dart_binary == dart_binary,
            r.config == config,
            r.workspace_root == workspace_root,
            !r.scan_started,
            r.rules@.len() == 9,
            are_style_rules(r.rules@.subrange(0, 4)),
            are_runtime_rules(r.rules@.subrange(4, 9)),
    {
        LspProxy {
            dart_binary,
            config,
            rules: get_all_rules(),
            workspace_root,
            scan_started: false,
        }
    }

    /// The program to start as the server.
    pub fn server_program(&self) -> (r: String)
        ensures
            r@ == (match self.dart_binary {
                Some(b) => b@,
                None => "dart"@,
            }),
    {
        match &self.dart_binary {
            Some(b) => b.clone(),
            None => "dart".to_owned(),
        }
    }

    /// The arguments with which the server is started: they select its
    /// language-server mode.
    pub fn server_arguments() -> (r: Vec<String>)
        ensures
            r.deep_view() == seq!["language-server"@, "--protocol=lsp"@],
    {
        let mut r: Vec<String> = Vec::new();
        r.push("language-server".to_owned());
        r.push("--protocol=lsp".to_owned());
        assert(r.deep_view() =~= seq!["language-server"@, "--protocol=lsp"@]);
        r
    }

    /// What to tell the operator where the server cannot be started.
    pub fn spawn_failure(&self) -> (r: String)
        ensures
            r@ == "Failed to start Dart Analysis Server. Make sure '"@ + (match self.dart_binary {
                Some(b) => b@,
                None => "dart"@,
            }) + "' is in your PATH."@,
    {
        let mut r = "Failed to start Dart Analysis Server. Make sure '".to_owned();
        r.append(self.server_program().as_str());
        r.append("' is in your PATH.");
        r
    }

    /// Scans the files of the workspace with the session's rules: the new
    /// contents of the diagnostics cache.
    pub fn scan(&self, files: &Vec<DartFile>) -> (found: StringHashMap<Vec<Diagnostic>>)
        requires
            checkable(files@),
        ensures
            diagnostics_map(found@) == scan_result(self.rules@, files@, files@.len() as int),
    {
        analyze_workspace(files, &self.rules)
    }

    /// Decides what to do with a message of the client. It is always
    /// passed on as it is; the `initialize` request is noted.
    pub fn handle_client_message(&self, content: &str) -> (r: Outcome)
        ensures
            r.forward@ == content@,
            !r.start_scan,
            r.initialize_seen == has_method(content@, "initialize"@),
    {
        let initialize_seen = match parse_json(content) {
            Ok(doc) => match message_method(&doc) {
                Some(m) => str_eq(m, "initialize"),
                None => false,
            },
            Err(_) => false,
        };
        Outcome { forward: content.to_owned(), start_scan: false, initialize_seen }
    }

    /// Decides what to do with a message of the server. The first message
    /// that completes the handshake starts the scan; a message that
    /// publishes diagnostics for a file that `cache` knows is passed on
    /// with the cached diagnostics appended; every other message, and a
    /// payload that is not JSON, is passed on as it is.
    pub fn handle_server_message(&mut self, content: &str, cache: &DiagnosticsCache) -> (r: Result<
        Outcome,
        ProxyError,
    >)
        ensures
            final(self).scan_started == (old(self).scan_started || is_handshake(content@)),
            final(self).dart_binary == old(self).dart_binary,
            final(self).config == old(self).config,
            final(self).rules == old(self).rules,
            final(self).workspace_root == old(self).workspace_root,
            json_parse(content@) is None ==> (r matches Ok(o) && o.forward@ == content@),
            match r {
                Ok(o) => {
                    &&& o.start_scan == (is_handshake(content@) && !old(self).scan_started)
                    &&& !o.initialize_seen
                    &&& server_forward(content@, cache@, o.forward@)
                },
                Err(e) => e == ProxyError::Serialize && server_forward_fails(content@, cache@),
            },
    {
        match parse_json(content) {
            Err(_) => Ok(
                Outcome { forward: content.to_owned(), start_scan: false, initialize_seen: false },
            ),
            Ok(doc) => {
                let mut doc = doc;
                let ghost parsed = doc;
                let handshake = match message_method(&doc) {
                    Some(m) => str_eq(m, "initialized"),
                    None => false,
                };
                let start_scan = handshake && !self.scan_started;
                if start_scan {
                    self.scan_started = true;
                }
                if inject_diagnostics(&mut doc, cache) {
                    match json_to_string(&doc) {
                        Ok(text) => Ok(
                            Outcome { forward: text, start_scan, initialize_seen: false },
                        ),
                        Err(_) => Err(ProxyError::Serialize),
                    }
                } else {
                    Ok(
                        Outcome {
                            forward: content.to_owned(),
                            start_scan,
                            initialize_seen: false,
                        },
                    )
                }
            },
        }
    }
}

} // verus!
