use dart_re_analyzer::analyzer::Rule;
use dart_re_analyzer::config::{
    default_enabled, default_max_line_length, default_parallel, AnalyzerConfig, RuleSetConfig,
};
use dart_re_analyzer::error::{AnalyzerError, Diagnostic, Location, RuleCategory, Severity};
use dart_re_analyzer::parser::{find_dart_files, is_dart_file, is_excluded_path, DartFile};
use dart_re_analyzer::project::{
    analyze_sequential, collect_findings, distinct_files, has_errors, icon_of, render_report,
    select_rules,
};

fn diagnostic(file: &str, severity: Severity, suggestion: Option<&str>) -> Diagnostic {
    Diagnostic {
        rule_id: "some_rule".to_string(),
        message: "Something".to_string(),
        severity,
        category: RuleCategory::Style,
        location: Location {
            file: file.to_string(),
            line: 3,
            column: 14,
            end_line: None,
            end_column: None,
        },
        suggestion: suggestion.map(|s| s.to_string()),
    }
}

#[test]
fn default_settings() {
    let config = AnalyzerConfig::default();
    assert!(config.enabled);
    assert_eq!(
        config.exclude_patterns,
        vec![".dart_tool/**", "build/**", ".pub/**", "packages/**"]
    );
    assert!(config.style_rules.enabled && config.style_rules.disabled_rules.is_empty());
    assert!(config.runtime_rules.enabled && config.runtime_rules.disabled_rules.is_empty());
    assert_eq!(config.max_line_length, 120);
    assert!(config.parallel);
    assert!(default_enabled() && default_parallel());
    assert_eq!(default_max_line_length(), 120);
    let copy = config.clone();
    assert_eq!(copy.exclude_patterns, config.exclude_patterns);
    assert_eq!(copy.max_line_length, 120);
}

#[test]
fn rules_are_switched_off_by_set_or_by_name() {
    let mut config = AnalyzerConfig::default();
    assert!(config.is_rule_enabled("line_length", true));
    assert!(config.is_rule_enabled("avoid_print", false));
    config.style_rules.disabled_rules.push("line_length".to_string());
    assert!(!config.is_rule_enabled("line_length", true));
    assert!(config.is_rule_enabled("line_length", false));
    assert!(config.is_rule_enabled("line_lengt", true));
    config.runtime_rules = RuleSetConfig { enabled: false, disabled_rules: vec![] };
    assert!(!config.is_rule_enabled("avoid_print", false));
    assert!(config.is_rule_enabled("camel_case_class_names", true));
}

#[test]
fn dart_sources_are_told_by_their_extension() {
    assert!(is_dart_file("lib/main.dart"));
    assert!(is_dart_file("a.b.dart"));
    assert!(!is_dart_file("lib/main.Dart"));
    assert!(!is_dart_file("lib/main.dart.bak"));
    assert!(!is_dart_file("lib/dart"));
    assert!(!is_dart_file(".dart"));
    assert!(!is_dart_file(""));
}

#[test]
fn tool_directories_are_left_out() {
    assert!(is_excluded_path("/ws/.dart_tool/x.dart"));
    assert!(is_excluded_path("/ws/build/x.dart"));
    assert!(is_excluded_path("ws/.pub/x.dart"));
    assert!(is_excluded_path("/ws/packages/a/x.dart"));
    assert!(!is_excluded_path("/ws/lib/build.dart"));
    assert!(!is_excluded_path("build/x.dart"));
    assert!(!is_excluded_path("/ws/mypackages/x.dart"));
    let found = find_dart_files(&vec![
        "/ws/lib/b.dart".to_string(),
        "/ws/build/a.dart".to_string(),
        "/ws/README.md".to_string(),
        "/ws/lib/a.dart".to_string(),
        "/ws/.dart_tool/c.dart".to_string(),
    ]);
    assert_eq!(found, vec!["/ws/lib/b.dart", "/ws/lib/a.dart"]);
}

#[test]
fn rules_are_selected_by_the_flags() {
    let names = |style_only, runtime_only| -> Vec<String> {
        select_rules(style_only, runtime_only).iter().map(|r| r.name().to_string()).collect()
    };
    assert_eq!(names(false, false).len(), 9);
    assert_eq!(
        names(true, false),
        vec!["camel_case_class_names", "snake_case_file_names", "private_field_underscore", "line_length"]
    );
    assert_eq!(names(true, true), names(true, false));
    assert_eq!(
        names(false, true),
        vec![
            "avoid_dynamic",
            "avoid_empty_catch",
            "unused_import",
            "avoid_print",
            "avoid_null_check_on_nullable"
        ]
    );
}

#[test]
fn findings_come_file_after_file() {
    let files = vec![
        DartFile { path: "b.dart".to_string(), content: "print(1);\n".to_string() },
        DartFile { path: "clean.dart".to_string(), content: "int x;\n".to_string() },
        DartFile { path: "a.dart".to_string(), content: "dynamic x;\nprint(x);\n".to_string() },
    ];
    let found = analyze_sequential(&files, &select_rules(false, true));
    let told: Vec<(&str, &str)> =
        found.iter().map(|d| (d.location.file.as_str(), d.rule_id.as_str())).collect();
    assert_eq!(
        told,
        vec![("b.dart", "avoid_print"), ("a.dart", "avoid_dynamic"), ("a.dart", "avoid_print")]
    );
    let collected = collect_findings(vec![
        vec![diagnostic("x", Severity::Info, None)],
        vec![],
        vec![diagnostic("y", Severity::Info, None), diagnostic("z", Severity::Info, None)],
    ]);
    let files: Vec<&str> = collected.iter().map(|d| d.location.file.as_str()).collect();
    assert_eq!(files, vec!["x", "y", "z"]);
    assert!(collect_findings(vec![]).is_empty());
}

#[test]
fn a_run_fails_where_there_is_an_error() {
    assert!(!has_errors(&vec![]));
    assert!(!has_errors(&vec![
        diagnostic("a", Severity::Warning, None),
        diagnostic("a", Severity::Info, None)
    ]));
    assert!(has_errors(&vec![
        diagnostic("a", Severity::Warning, None),
        diagnostic("a", Severity::Error, None)
    ]));
}

#[test]
fn report_lists_the_findings_file_by_file() {
    assert_eq!(render_report(&vec![]), "\n\u{2713} No issues found!\n");
    let list = vec![
        diagnostic("lib/b.dart", Severity::Error, Some("Fix it")),
        diagnostic("lib/a.dart", Severity::Info, None),
        diagnostic("lib/b.dart", Severity::Warning, None),
    ];
    assert_eq!(distinct_files(&list), vec!["lib/b.dart", "lib/a.dart"]);
    let expected = format!(
        "\nIssues found:\n\nlib/b.dart:\n  {} [3:14] style (some_rule): Something\n    {} Fix it\n  {} [3:14] style (some_rule): Something\n\nlib/a.dart:\n  {} [3:14] style (some_rule): Something\n\nSummary:\n  1 errors, 1 warnings, 1 info messages\n",
        icon_of(Severity::Error),
        "\u{1f4a1}",
        icon_of(Severity::Warning),
        icon_of(Severity::Info),
    );
    assert_eq!(render_report(&list), expected);
    assert_eq!(icon_of(Severity::Error), "\u{2717}");
    assert_eq!(icon_of(Severity::Warning), "\u{26a0}");
    assert_eq!(icon_of(Severity::Info), "\u{2139}");
}

#[test]
fn errors_and_names_are_shown_with_their_words() {
    assert_eq!(AnalyzerError::Io("gone".to_string()).to_string(), "IO error: gone");
    assert_eq!(AnalyzerError::Parse("bad".to_string()).to_string(), "Parse error: bad");
    assert_eq!(AnalyzerError::Config("odd".to_string()).to_string(), "Configuration error: odd");
    assert_eq!(AnalyzerError::McpServer("down".to_string()).to_string(), "MCP server error: down");
    assert_eq!(Severity::Error.to_string(), "error");
    assert_eq!(Severity::Warning.to_string(), "warning");
    assert_eq!(Severity::Info.to_string(), "info");
    assert_eq!(RuleCategory::Style.to_string(), "style");
    assert_eq!(RuleCategory::Runtime.to_string(), "runtime");
    let d = Diagnostic::new(
        "r",
        "m",
        Severity::Info,
        RuleCategory::Runtime,
        Location { file: "f".to_string(), line: 1, column: 2, end_line: Some(1), end_column: None },
    );
    assert_eq!((d.rule_id.as_str(), d.message.as_str()), ("r", "m"));
    assert!(d.suggestion.is_none());
    let d = d.with_suggestion("s");
    assert_eq!(d.suggestion.as_deref(), Some("s"));
    let copy = d.clone();
    assert_eq!(copy.location.file, "f");
    assert_eq!(copy.location.end_line, Some(1));
    assert_eq!(copy.suggestion.as_deref(), Some("s"));
}
