use dart_re_analyzer::analyzer::Rule;
use dart_re_analyzer::config::AnalyzerConfig;
use dart_re_analyzer::error::{Diagnostic, Location, RuleCategory, Severity};
use dart_re_analyzer::lsp::cache::{snapshot_of, DiagnosticsCache};
use dart_re_analyzer::lsp::merge::{diagnostic_to_lsp, inject_diagnostics, path_of_uri, severity_to_lsp};
use dart_re_analyzer::lsp::scan::{analyze_workspace, check_file};
use dart_re_analyzer::lsp::LspProxy;
use dart_re_analyzer::parser::DartFile;
use dart_re_analyzer::rules::runtime::AvoidDynamicRule;
use dart_re_analyzer::rules::{get_all_rules, BuiltinRule};
use serde_json::Value;

fn diagnostic(file: &str, line: usize, column: usize, severity: Severity) -> Diagnostic {
    Diagnostic {
        rule_id: "test_rule".to_string(),
        message: "Test message".to_string(),
        severity,
        category: RuleCategory::Runtime,
        location: Location {
            file: file.to_string(),
            line,
            column,
            end_line: None,
            end_column: None,
        },
        suggestion: None,
    }
}

fn cache_with(path: &str, list: Vec<Diagnostic>) -> DiagnosticsCache {
    let mut cache = DiagnosticsCache::new();
    cache.replace(snapshot_of(vec![(path.to_string(), list)]));
    cache
}

fn proxy() -> LspProxy {
    LspProxy::new(None, AnalyzerConfig::default(), "/work".to_string())
}

fn parse(text: &str) -> Value {
    serde_json::from_str(text).unwrap()
}

#[test]
fn merge_appends_converted_diagnostic() {
    let cache = cache_with("/work/lib/a.dart", vec![diagnostic("/work/lib/a.dart", 10, 5, Severity::Warning)]);
    let mut session = proxy();
    let content = r#"{"jsonrpc":"2.0","method":"textDocument/publishDiagnostics","params":{"uri":"file:///work/lib/a.dart","diagnostics":[]}}"#;
    let outcome = session.handle_server_message(content, &cache).unwrap();
    assert!(!outcome.start_scan);
    let out = parse(&outcome.forward);
    let list = out["params"]["diagnostics"].as_array().unwrap();
    assert_eq!(list.len(), 1);
    assert_eq!(list[0]["range"]["start"]["line"], 9);
    assert_eq!(list[0]["range"]["start"]["character"], 4);
    assert_eq!(list[0]["range"]["end"]["line"], 9);
    assert_eq!(list[0]["range"]["end"]["character"], 5);
    assert_eq!(list[0]["severity"], 2);
    assert_eq!(list[0]["code"], "test_rule");
    assert_eq!(list[0]["source"], "dart-re-analyzer");
    assert_eq!(list[0]["message"], "Test message");
    assert_eq!(out["params"]["uri"], "file:///work/lib/a.dart");
    assert_eq!(out["method"], "textDocument/publishDiagnostics");
    assert_eq!(out["jsonrpc"], "2.0");
}

#[test]
fn merge_keeps_the_diagnostics_of_the_server_first() {
    let cache = cache_with(
        "a.dart",
        vec![diagnostic("a.dart", 1, 1, Severity::Error), diagnostic("a.dart", 3, 7, Severity::Info)],
    );
    let mut message = parse(
        r#"{"method":"textDocument/publishDiagnostics","params":{"uri":"a.dart","diagnostics":[{"message":"theirs"}]}}"#,
    );
    assert!(inject_diagnostics(&mut message, &cache));
    let list = message["params"]["diagnostics"].as_array().unwrap();
    assert_eq!(list.len(), 3);
    assert_eq!(list[0]["message"], "theirs");
    assert_eq!(list[1]["severity"], 1);
    assert_eq!(list[1]["range"]["start"]["line"], 0);
    assert_eq!(list[2]["severity"], 3);
    assert_eq!(list[2]["range"]["start"]["line"], 2);
    assert_eq!(list[2]["range"]["start"]["character"], 6);
    assert_eq!(list[2]["range"]["end"]["character"], 7);
}

#[test]
fn nothing_is_merged_for_other_messages() {
    let cache = cache_with("/a.dart", vec![diagnostic("/a.dart", 1, 1, Severity::Error)]);
    for content in [
        r#"{"method":"textDocument/publishDiagnostics","params":{"uri":"file:///b.dart","diagnostics":[]}}"#,
        r#"{"method":"textDocument/publishDiagnostics","params":{"uri":"file:///A.dart","diagnostics":[]}}"#,
        r#"{"method":"textDocument/publishDiagnostics","params":{"uri":"file:///a.dart/","diagnostics":[]}}"#,
        r#"{"method":"textDocument/publishDiagnostics","params":{"uri":"file:///a.dart","diagnostics":{}}}"#,
        r#"{"method":"textDocument/publishDiagnostics","params":{"uri":"file:///a.dart"}}"#,
        r#"{"method":"textDocument/publishDiagnostics","params":{"uri":7,"diagnostics":[]}}"#,
        r#"{"method":"textDocument/publishDiagnostics"}"#,
        r#"{"method":"textDocument/hover","params":{"uri":"file:///a.dart","diagnostics":[]}}"#,
        r#"{"method":17,"params":{"uri":"file:///a.dart","diagnostics":[]}}"#,
        r#"{ "id" : 1,   "result" : null }"#,
        r#"[1, 2, 3]"#,
    ] {
        let mut message = parse(content);
        let before = message.clone();
        assert!(!inject_diagnostics(&mut message, &cache), "{}", content);
        assert_eq!(message, before);
        let mut session = proxy();
        let outcome = session.handle_server_message(content, &cache).unwrap();
        assert_eq!(outcome.forward, content);
        assert!(!outcome.start_scan);
    }
}

#[test]
fn payload_that_is_not_json_passes_through_unchanged() {
    let cache = DiagnosticsCache::new();
    let mut session = proxy();
    for content in ["", "not json", "{\"method\": ", "{'a': 1}", "\u{0}\u{1}binary"] {
        let to_client = session.handle_server_message(content, &cache).unwrap();
        assert_eq!(to_client.forward, content);
        assert!(!to_client.start_scan);
        assert!(!to_client.initialize_seen);
        let to_server = session.handle_client_message(content);
        assert_eq!(to_server.forward, content);
        assert!(!to_server.start_scan);
        assert!(!to_server.initialize_seen);
    }
    assert!(!session.scan_started);
}

#[test]
fn scan_is_started_once() {
    let cache = DiagnosticsCache::new();
    let mut session = proxy();
    assert!(!session.scan_started);
    let handshake = r#"{"jsonrpc":"2.0","method":"initialized","params":{}}"#;
    let other = r#"{"jsonrpc":"2.0","id":1,"result":{}}"#;
    let first = session.handle_server_message(other, &cache).unwrap();
    assert!(!first.start_scan);
    assert!(!session.scan_started);
    let second = session.handle_server_message(handshake, &cache).unwrap();
    assert!(second.start_scan);
    assert_eq!(second.forward, handshake);
    assert!(session.scan_started);
    let third = session.handle_server_message(handshake, &cache).unwrap();
    assert!(!third.start_scan);
    assert_eq!(third.forward, handshake);
    assert!(session.scan_started);
    let fourth = session.handle_server_message(other, &cache).unwrap();
    assert!(!fourth.start_scan);
}

#[test]
fn client_messages_are_passed_on_and_initialize_is_noted() {
    let session = proxy();
    let initialize = r#"{"jsonrpc":"2.0","id":0,"method":"initialize","params":{}}"#;
    let outcome = session.handle_client_message(initialize);
    assert_eq!(outcome.forward, initialize);
    assert!(outcome.initialize_seen);
    assert!(!outcome.start_scan);
    let initialized = r#"{"jsonrpc":"2.0","method":"initialized"}"#;
    let outcome = session.handle_client_message(initialized);
    assert_eq!(outcome.forward, initialized);
    assert!(!outcome.initialize_seen);
    assert!(!outcome.start_scan);
}

#[test]
fn severity_numbers() {
    assert_eq!(severity_to_lsp(Severity::Error), 1);
    assert_eq!(severity_to_lsp(Severity::Warning), 2);
    assert_eq!(severity_to_lsp(Severity::Info), 3);
}

#[test]
fn conversion_counts_from_zero_and_stops_at_zero() {
    let value = diagnostic_to_lsp(&diagnostic("a.dart", 0, 0, Severity::Error));
    assert_eq!(value["range"]["start"]["line"], 0);
    assert_eq!(value["range"]["start"]["character"], 0);
    assert_eq!(value["range"]["end"]["line"], 0);
    assert_eq!(value["range"]["end"]["character"], 1);
    let value = diagnostic_to_lsp(&diagnostic("a.dart", 1, usize::MAX, Severity::Error));
    assert_eq!(value["range"]["start"]["character"], usize::MAX - 1);
    assert_eq!(value["range"]["end"]["character"], usize::MAX);
    assert_eq!(value.as_object().unwrap().len(), 5);
    assert_eq!(value["range"].as_object().unwrap().len(), 2);
}

#[test]
fn only_the_file_scheme_is_stripped_from_a_uri() {
    assert_eq!(path_of_uri("file:///home/u/a.dart"), "/home/u/a.dart");
    assert_eq!(path_of_uri("file://"), "");
    assert_eq!(path_of_uri("/home/u/a.dart"), "/home/u/a.dart");
    assert_eq!(path_of_uri("file:/a"), "file:/a");
    assert_eq!(path_of_uri("FILE:///a"), "FILE:///a");
    assert_eq!(path_of_uri("file:///a%20b"), "/a%20b");
    assert_eq!(path_of_uri("http://file://x"), "http://file://x");
}

#[test]
fn cache_is_replaced_as_a_whole() {
    let mut cache = cache_with("old.dart", vec![diagnostic("old.dart", 1, 1, Severity::Error)]);
    assert_eq!(cache.len(), 1);
    assert!(cache.lookup("old.dart").is_some());
    assert!(cache.lookup("new.dart").is_none());
    cache.replace(snapshot_of(vec![
        ("new.dart".to_string(), vec![diagnostic("new.dart", 9, 9, Severity::Error)]),
        (
            "new.dart".to_string(),
            vec![
                diagnostic("new.dart", 1, 1, Severity::Error),
                diagnostic("new.dart", 2, 1, Severity::Info),
            ],
        ),
        ("other.dart".to_string(), vec![diagnostic("other.dart", 1, 1, Severity::Error)]),
    ]));
    assert_eq!(cache.len(), 2);
    assert!(cache.lookup("old.dart").is_none());
    assert_eq!(cache.lookup("new.dart").unwrap().len(), 2);
    assert_eq!(cache.lookup("new.dart").unwrap()[0].location.line, 1);
    assert!(cache.lookup("./new.dart").is_none());
    assert_eq!(DiagnosticsCache::new().len(), 0);
}

#[test]
fn scan_keeps_only_files_with_findings() {
    let files = vec![
        DartFile { path: "/ws/lib/bad.dart".to_string(), content: "void f(dynamic x) {}\n".to_string() },
        DartFile { path: "/ws/lib/clean.dart".to_string(), content: "void g(int x) {}\n".to_string() },
    ];
    let rules = vec![AvoidDynamicRule];
    let found = analyze_workspace(&files, &rules);
    let mut cache = DiagnosticsCache::new();
    cache.replace(found);
    assert_eq!(cache.len(), 1);
    let list = cache.lookup("/ws/lib/bad.dart").unwrap();
    assert_eq!(list.len(), 1);
    assert_eq!(list[0].rule_id, "avoid_dynamic");
    assert!(cache.lookup("/ws/lib/clean.dart").is_none());
}

#[test]
fn scan_with_all_rules_collects_rule_after_rule() {
    let session = proxy();
    let files = vec![DartFile {
        path: "lib/MyFile.dart".to_string(),
        content: "class foo {}\nvoid f(dynamic x) { print(x!.y); }\n".to_string(),
    }];
    let found = session.scan(&files);
    let list = found.get("lib/MyFile.dart").unwrap();
    let ids: Vec<&str> = list.iter().map(|d| d.rule_id.as_str()).collect();
    assert_eq!(
        ids,
        vec![
            "camel_case_class_names",
            "snake_case_file_names",
            "avoid_dynamic",
            "avoid_print",
            "avoid_null_check_on_nullable"
        ]
    );
    let again = check_file(&get_all_rules(), "lib/MyFile.dart", &files[0].content);
    assert_eq!(again.len(), 5);
}

#[test]
fn all_rules_are_style_rules_then_runtime_rules() {
    let rules = get_all_rules();
    let names: Vec<&str> = rules.iter().map(|r| r.name()).collect();
    assert_eq!(
        names,
        vec![
            "camel_case_class_names",
            "snake_case_file_names",
            "private_field_underscore",
            "line_length",
            "avoid_dynamic",
            "avoid_empty_catch",
            "unused_import",
            "avoid_print",
            "avoid_null_check_on_nullable"
        ]
    );
    assert!(matches!(rules[3], BuiltinRule::LineLength(_)));
    let long = "x".repeat(121);
    assert_eq!(rules[3].check("a.dart", &long).unwrap().len(), 1);
    assert_eq!(rules[3].check("a.dart", &long[..120]).unwrap().len(), 0);
}

#[test]
fn server_is_started_with_fixed_arguments() {
    let session = proxy();
    assert_eq!(session.server_program(), "dart");
    assert_eq!(LspProxy::server_arguments(), vec!["language-server", "--protocol=lsp"]);
    let custom = LspProxy::new(Some("/opt/dart/bin/dart".to_string()), AnalyzerConfig::default(), ".".to_string());
    assert_eq!(custom.server_program(), "/opt/dart/bin/dart");
    assert_eq!(
        custom.spawn_failure(),
        "Failed to start Dart Analysis Server. Make sure '/opt/dart/bin/dart' is in your PATH."
    );
    assert_eq!(custom.workspace_root, ".");
    assert_eq!(custom.rules.len(), 9);
}

#[test]
fn a_copy_of_a_session_is_set_up_alike_and_has_started_no_scan() {
    let cache = DiagnosticsCache::new();
    let mut session = LspProxy::new(Some("mydart".to_string()), AnalyzerConfig::default(), "/w".to_string());
    let handshake = r#"{"method":"initialized"}"#;
    assert!(session.handle_server_message(handshake, &cache).unwrap().start_scan);
    let mut copy = session.clone();
    assert!(session.scan_started);
    assert!(!copy.scan_started);
    assert_eq!(copy.server_program(), "mydart");
    assert_eq!(copy.workspace_root, "/w");
    assert_eq!(copy.config.max_line_length, 120);
    let names: Vec<&str> = copy.rules.iter().map(|r| r.name()).collect();
    let expected: Vec<&str> = session.rules.iter().map(|r| r.name()).collect();
    assert_eq!(names, expected);
    assert!(copy.handle_server_message(handshake, &cache).unwrap().start_scan);
}
