use dart_re_analyzer::error::{Diagnostic, Location, RuleCategory, Severity};
use dart_re_analyzer::mcp::{
    listen_address, DiagnosticsStats, ErrorsQuery, McpData, McpRequest, McpResponse, McpServer,
};

fn no_filter() -> ErrorsQuery {
    ErrorsQuery { category: None, severity: None, file: None }
}

fn diagnostics_of(response: McpResponse) -> Vec<Diagnostic> {
    match response.data {
        McpData::Diagnostics(list) => list,
        other => panic!("the response holds no diagnostics: {:?}", other),
    }
}

#[test]
fn test_mcp_server_creation() {
    let mcp = McpServer::new();
    let diagnostics = mcp.get_all_diagnostics();
    assert_eq!(diagnostics.len(), 0);
}

#[test]
fn test_mcp_update_diagnostics() {
    let mut mcp = McpServer::new();

    let diag = Diagnostic {
        location: Location {
            file: "test.dart".to_string(),
            line: 10,
            column: 5,
            end_line: None,
            end_column: None,
        },
        severity: Severity::Error,
        category: RuleCategory::Runtime,
        rule_id: "test_rule".to_string(),
        message: "Test error".to_string(),
        suggestion: Some("Fix it".to_string()),
    };

    mcp.update_diagnostics(vec![diag.clone()]);

    let diagnostics = mcp.get_all_diagnostics();
    assert_eq!(diagnostics.len(), 1);
    assert_eq!(diagnostics[0].rule_id, "test_rule");
}

#[test]
fn test_mcp_get_all_errors_request() {
    let mut mcp = McpServer::new();

    let diag1 = create_test_diagnostic("test1.dart", Severity::Error, RuleCategory::Runtime, "rule1");
    let diag2 = create_test_diagnostic("test2.dart", Severity::Warning, RuleCategory::Style, "rule2");

    mcp.update_diagnostics(vec![diag1, diag2]);

    let request = McpRequest { method: "get_all_errors".to_string(), params: Ok(no_filter()) };

    let response = mcp.handle_request(request);
    assert!(response.success);
    assert!(response.error.is_none());

    let diagnostics = diagnostics_of(response);
    assert_eq!(diagnostics.len(), 2);
}

#[test]
fn test_mcp_get_errors_filtered_by_category() {
    let mut mcp = McpServer::new();

    let diag1 = create_test_diagnostic("test1.dart", Severity::Error, RuleCategory::Runtime, "rule1");
    let diag2 = create_test_diagnostic("test2.dart", Severity::Warning, RuleCategory::Style, "rule2");
    let diag3 = create_test_diagnostic("test3.dart", Severity::Error, RuleCategory::Runtime, "rule3");

    mcp.update_diagnostics(vec![diag1, diag2, diag3]);

    let request = McpRequest {
        method: "get_errors".to_string(),
        params: Ok(ErrorsQuery { category: Some("runtime".to_string()), severity: None, file: None }),
    };

    let response = mcp.handle_request(request);
    assert!(response.success);

    let diagnostics = diagnostics_of(response);
    assert_eq!(diagnostics.len(), 2);
    assert!(diagnostics.iter().all(|d| matches!(d.category, RuleCategory::Runtime)));
}

#[test]
fn test_mcp_get_errors_filtered_by_severity() {
    let mut mcp = McpServer::new();

    let diag1 = create_test_diagnostic("test1.dart", Severity::Error, RuleCategory::Runtime, "rule1");
    let diag2 = create_test_diagnostic("test2.dart", Severity::Warning, RuleCategory::Style, "rule2");
    let diag3 = create_test_diagnostic("test3.dart", Severity::Info, RuleCategory::Style, "rule3");

    mcp.update_diagnostics(vec![diag1, diag2, diag3]);

    let request = McpRequest {
        method: "get_errors".to_string(),
        params: Ok(ErrorsQuery { category: None, severity: Some("warning".to_string()), file: None }),
    };

    let response = mcp.handle_request(request);
    assert!(response.success);

    let diagnostics = diagnostics_of(response);
    assert_eq!(diagnostics.len(), 1);
    assert!(diagnostics.iter().all(|d| matches!(d.severity, Severity::Warning)));
}

#[test]
fn test_mcp_get_errors_filtered_by_file() {
    let mut mcp = McpServer::new();

    let diag1 = create_test_diagnostic("lib/main.dart", Severity::Error, RuleCategory::Runtime, "rule1");
    let diag2 = create_test_diagnostic("lib/utils.dart", Severity::Warning, RuleCategory::Style, "rule2");
    let diag3 = create_test_diagnostic("lib/main.dart", Severity::Error, RuleCategory::Runtime, "rule3");

    mcp.update_diagnostics(vec![diag1, diag2, diag3]);

    let request = McpRequest {
        method: "get_errors".to_string(),
        params: Ok(ErrorsQuery { category: None, severity: None, file: Some("main.dart".to_string()) }),
    };

    let response = mcp.handle_request(request);
    assert!(response.success);

    let diagnostics = diagnostics_of(response);
    assert_eq!(diagnostics.len(), 2);
    assert!(diagnostics.iter().all(|d| d.location.file.contains("main.dart")));
}

#[test]
fn test_mcp_get_errors_multiple_filters() {
    let mut mcp = McpServer::new();

    let diag1 = create_test_diagnostic("lib/main.dart", Severity::Error, RuleCategory::Runtime, "rule1");
    let diag2 = create_test_diagnostic("lib/main.dart", Severity::Warning, RuleCategory::Runtime, "rule2");
    let diag3 = create_test_diagnostic("lib/utils.dart", Severity::Error, RuleCategory::Runtime, "rule3");
    let diag4 = create_test_diagnostic("lib/main.dart", Severity::Error, RuleCategory::Style, "rule4");

    mcp.update_diagnostics(vec![diag1, diag2, diag3, diag4]);

    let request = McpRequest {
        method: "get_errors".to_string(),
        params: Ok(ErrorsQuery {
            category: Some("runtime".to_string()),
            severity: Some("error".to_string()),
            file: Some("main.dart".to_string()),
        }),
    };

    let response = mcp.handle_request(request);
    assert!(response.success);

    let diagnostics = diagnostics_of(response);
    assert_eq!(diagnostics.len(), 1);
    assert_eq!(diagnostics[0].rule_id, "rule1");
}

#[test]
fn test_mcp_get_stats() {
    let mut mcp = McpServer::new();

    let diag1 = create_test_diagnostic("test1.dart", Severity::Error, RuleCategory::Runtime, "rule1");
    let diag2 = create_test_diagnostic("test2.dart", Severity::Warning, RuleCategory::Style, "rule2");
    let diag3 = create_test_diagnostic("test2.dart", Severity::Info, RuleCategory::Style, "rule3");
    let diag4 = create_test_diagnostic("test3.dart", Severity::Error, RuleCategory::Runtime, "rule4");

    mcp.update_diagnostics(vec![diag1, diag2, diag3, diag4]);

    let request = McpRequest { method: "get_stats".to_string(), params: Ok(no_filter()) };

    let response = mcp.handle_request(request);
    assert!(response.success);

    let stats: DiagnosticsStats = match response.data {
        McpData::Stats(stats) => stats,
        other => panic!("the response holds no statistics: {:?}", other),
    };
    assert_eq!(stats.total, 4);
    assert_eq!(stats.errors, 2);
    assert_eq!(stats.warnings, 1);
    assert_eq!(stats.info, 1);
    assert_eq!(stats.runtime_issues, 2);
    assert_eq!(stats.style_issues, 2);
    assert_eq!(stats.files_with_issues, 3);
}

#[test]
fn test_mcp_unknown_method() {
    let mcp = McpServer::new();

    let request = McpRequest { method: "unknown_method".to_string(), params: Ok(no_filter()) };

    let response = mcp.handle_request(request);
    assert!(!response.success);
    assert!(response.error.is_some());
    assert!(response.error.unwrap().contains("Unknown method"));
}

#[test]
fn test_mcp_invalid_query_params() {
    let mcp = McpServer::new();

    let request = McpRequest {
        method: "get_errors".to_string(),
        params: Err("invalid type: string \"invalid\", expected struct ErrorsQuery".to_string()),
    };

    let response = mcp.handle_request(request);
    assert!(!response.success);
    assert!(response.error.is_some());
    assert!(response.error.unwrap().contains("Invalid query parameters"));
}

#[test]
fn test_diagnostics_stats_from_empty() {
    let diagnostics: Vec<Diagnostic> = vec![];
    let stats = DiagnosticsStats::from_diagnostics(&diagnostics);

    assert_eq!(stats.total, 0);
    assert_eq!(stats.errors, 0);
    assert_eq!(stats.warnings, 0);
    assert_eq!(stats.info, 0);
    assert_eq!(stats.runtime_issues, 0);
    assert_eq!(stats.style_issues, 0);
    assert_eq!(stats.files_with_issues, 0);
}

#[test]
fn test_filtered_diagnostics_query() {
    let mut mcp = McpServer::new();

    let diag1 = create_test_diagnostic("test.dart", Severity::Error, RuleCategory::Runtime, "rule1");
    let diag2 = create_test_diagnostic("test.dart", Severity::Warning, RuleCategory::Style, "rule2");

    mcp.update_diagnostics(vec![diag1, diag2]);

    let query = ErrorsQuery { category: Some("runtime".to_string()), severity: None, file: None };

    let filtered = mcp.get_filtered_diagnostics(&query);
    assert_eq!(filtered.len(), 1);
    assert_eq!(filtered[0].rule_id, "rule1");
}

#[test]
fn answers_tell_failures_in_full() {
    let mcp = McpServer::new();
    let unknown = mcp.handle_request(McpRequest { method: "nope".to_string(), params: Ok(no_filter()) });
    assert_eq!(unknown.error.as_deref(), Some("Unknown method: nope"));
    assert!(matches!(unknown.data, McpData::Null));
    let invalid = mcp.handle_request(McpRequest {
        method: "get_errors".to_string(),
        params: Err("expected a map".to_string()),
    });
    assert_eq!(invalid.error.as_deref(), Some("Invalid query parameters: expected a map"));
    assert!(matches!(invalid.data, McpData::Null));
    let ignored = mcp.handle_request(McpRequest {
        method: "get_stats".to_string(),
        params: Err("expected a map".to_string()),
    });
    assert!(ignored.success);
}

#[test]
fn filters_compare_names_exactly_and_keep_the_order() {
    let mut mcp = McpServer::new();
    mcp.update_diagnostics(vec![
        create_test_diagnostic("lib/a.dart", Severity::Info, RuleCategory::Style, "r1"),
        create_test_diagnostic("lib/b.dart", Severity::Info, RuleCategory::Style, "r2"),
        create_test_diagnostic("lib/a.dart", Severity::Info, RuleCategory::Runtime, "r3"),
    ]);
    let by = |category: Option<&str>, severity: Option<&str>, file: Option<&str>| {
        mcp.get_filtered_diagnostics(&ErrorsQuery {
            category: category.map(|s| s.to_string()),
            severity: severity.map(|s| s.to_string()),
            file: file.map(|s| s.to_string()),
        })
        .iter()
        .map(|d| d.rule_id.clone())
        .collect::<Vec<String>>()
    };
    assert_eq!(by(None, None, None), vec!["r1", "r2", "r3"]);
    assert_eq!(by(Some("style"), None, None), vec!["r1", "r2"]);
    assert_eq!(by(Some("Style"), None, None), Vec::<String>::new());
    assert_eq!(by(None, Some("info"), Some("a.dart")), vec!["r1", "r3"]);
    assert_eq!(by(None, Some("information"), None), Vec::<String>::new());
    assert_eq!(by(None, None, Some("")), vec!["r1", "r2", "r3"]);
    assert_eq!(by(None, None, Some("lib/a.dart/")), Vec::<String>::new());
}

#[test]
fn server_listens_on_this_host() {
    assert_eq!(listen_address(9000), "127.0.0.1:9000");
    assert_eq!(listen_address(0), "127.0.0.1:0");
    assert_eq!(listen_address(65535), "127.0.0.1:65535");
}

// Helper function to create test diagnostics
fn create_test_diagnostic(
    file: &str,
    severity: Severity,
    category: RuleCategory,
    rule_id: &str,
) -> Diagnostic {
    Diagnostic {
        location: Location {
            file: file.to_string(),
            line: 10,
            column: 5,
            end_line: None,
            end_column: None,
        },
        severity,
        category,
        rule_id: rule_id.to_string(),
        message: format!("Test message for {}", rule_id),
        suggestion: Some("Fix it".to_string()),
    }
}
