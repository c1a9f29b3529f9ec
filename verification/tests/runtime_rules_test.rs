use dart_re_analyzer::analyzer::Rule;
use dart_re_analyzer::error::{RuleCategory, Severity};
use dart_re_analyzer::rules::runtime::{
    AvoidDynamicRule, AvoidEmptyCatchRule, AvoidNullCheckOnNullableRule, AvoidPrintRule,
    UnusedImportRule,
};

#[test]
fn test_avoid_dynamic_detects_usage() {
    let rule = AvoidDynamicRule;
    let content = "void test(dynamic param) {}\n";
    let path = "test.dart";

    let diagnostics = rule.check(path, content).unwrap();
    assert_eq!(diagnostics.len(), 1);
    assert_eq!(diagnostics[0].rule_id, "avoid_dynamic");
    assert!(matches!(diagnostics[0].severity, Severity::Warning));
    assert!(matches!(diagnostics[0].category, RuleCategory::Runtime));
}

#[test]
fn test_avoid_dynamic_no_usage() {
    let rule = AvoidDynamicRule;
    let content = "void test(String param) {}\n";
    let path = "test.dart";

    let diagnostics = rule.check(path, content).unwrap();
    assert_eq!(diagnostics.len(), 0);
}

#[test]
fn test_avoid_empty_catch_detects_empty() {
    let rule = AvoidEmptyCatchRule;
    let content = "try {\n  doSomething();\n} catch (e) {}\n";
    let path = "test.dart";

    let diagnostics = rule.check(path, content).unwrap();
    assert_eq!(diagnostics.len(), 1);
    assert_eq!(diagnostics[0].rule_id, "avoid_empty_catch");
    assert!(matches!(diagnostics[0].severity, Severity::Error));
}

#[test]
fn test_avoid_empty_catch_allows_non_empty() {
    let rule = AvoidEmptyCatchRule;
    let content = "try {\n  doSomething();\n} catch (e) {\n  print(e);\n}\n";
    let path = "test.dart";

    let diagnostics = rule.check(path, content).unwrap();
    assert_eq!(diagnostics.len(), 0);
}

#[test]
fn test_avoid_print_detects_usage() {
    let rule = AvoidPrintRule;
    let content = "void test() {\n  print('hello');\n}\n";
    let path = "test.dart";

    let diagnostics = rule.check(path, content).unwrap();
    assert_eq!(diagnostics.len(), 1);
    assert_eq!(diagnostics[0].rule_id, "avoid_print");
    assert!(matches!(diagnostics[0].severity, Severity::Info));
}

#[test]
fn test_avoid_null_check_detects_operator() {
    let rule = AvoidNullCheckOnNullableRule;
    let content = "void test(String? value) {\n  print(value!.length);\n}\n";
    let path = "test.dart";

    let diagnostics = rule.check(path, content).unwrap();
    assert_eq!(diagnostics.len(), 1);
    assert_eq!(diagnostics[0].rule_id, "avoid_null_check_on_nullable");
    assert!(matches!(diagnostics[0].severity, Severity::Warning));
}

#[test]
fn test_unused_import_detects_unused() {
    let rule = UnusedImportRule;
    let content = "import 'dart:async';\n\nvoid test() {\n  print('hello');\n}\n";
    let path = "test.dart";

    let diagnostics = rule.check(path, content).unwrap();
    assert_eq!(diagnostics.len(), 1);
    assert_eq!(diagnostics[0].rule_id, "unused_import");
}

#[test]
fn test_unused_import_allows_used() {
    let rule = UnusedImportRule;
    let content = "import 'dart:async';\n\nvoid test() {\n  Timer.run(() {});\n}\n";
    let path = "test.dart";

    let diagnostics = rule.check(path, content).unwrap();
    assert!(diagnostics.len() <= 1);
}

#[test]
fn avoid_dynamic_reports_positions_counted_from_one() {
    let rule = AvoidDynamicRule;
    let diagnostics = rule.check("lib/a.dart", "int x;\n  dynamic y; dynamic z;\n").unwrap();
    assert_eq!(diagnostics.len(), 2);
    assert_eq!(diagnostics[0].location.file, "lib/a.dart");
    assert_eq!(diagnostics[0].location.line, 2);
    assert_eq!(diagnostics[0].location.column, 3);
    assert_eq!(diagnostics[0].location.end_line, Some(2));
    assert_eq!(diagnostics[0].location.end_column, Some(10));
    assert_eq!(diagnostics[1].location.column, 14);
    assert_eq!(
        diagnostics[0].message,
        "Avoid using 'dynamic' type as it bypasses type safety"
    );
    assert_eq!(
        diagnostics[0].suggestion.as_deref(),
        Some("Use a specific type or Object? instead")
    );
}

#[test]
fn avoid_dynamic_passes_over_comment_lines() {
    let rule = AvoidDynamicRule;
    let diagnostics = rule.check("a.dart", "   // dynamic here\ndynamic x; // dynamic\n").unwrap();
    assert_eq!(diagnostics.len(), 2);
    assert_eq!(diagnostics[0].location.line, 2);
    assert_eq!(diagnostics[1].location.line, 2);
}

#[test]
fn avoid_empty_catch_reports_first_match_of_a_line_only() {
    let rule = AvoidEmptyCatchRule;
    let content = "// catch (e) {} catch (f) { }\n";
    let diagnostics = rule.check("a.dart", content).unwrap();
    assert_eq!(diagnostics.len(), 1);
    assert_eq!(diagnostics[0].location.line, 1);
    assert_eq!(diagnostics[0].location.column, 4);
    assert_eq!(diagnostics[0].location.end_column, Some(16));
    assert!(matches!(diagnostics[0].category, RuleCategory::Runtime));
}

#[test]
fn unused_import_names_the_last_segment_without_suffix() {
    let rule = UnusedImportRule;
    let content = "import 'package:foo/bar_baz.dart';\nimport 'package:x/y.dart' as why;\nvoid f() { why.g(); }\n";
    let diagnostics = rule.check("a.dart", content).unwrap();
    assert_eq!(diagnostics.len(), 1);
    assert_eq!(diagnostics[0].message, "Import 'bar_baz' is unused");
    assert_eq!(diagnostics[0].location.line, 1);
    assert_eq!(diagnostics[0].location.column, 1);
    assert_eq!(diagnostics[0].location.end_line, Some(1));
    assert_eq!(diagnostics[0].location.end_column, Some(34));
    assert_eq!(
        diagnostics[0].suggestion.as_deref(),
        Some("Remove this unused import")
    );
    assert!(matches!(diagnostics[0].severity, Severity::Warning));
}

#[test]
fn unused_import_strips_repeated_suffix_and_sees_use_in_other_lines() {
    let rule = UnusedImportRule;
    let unused = rule.check("a.dart", "import 'a/b.dart.dart';\nvoid f() {}\n").unwrap();
    assert_eq!(unused.len(), 1);
    assert_eq!(unused[0].message, "Import 'b' is unused");
    let used = rule.check("a.dart", "import 'a/bee.dart';\nvoid f() { bee(); }\n").unwrap();
    assert_eq!(used.len(), 0);
}

#[test]
fn rule_names_are_their_identifiers() {
    assert_eq!(AvoidDynamicRule.name(), "avoid_dynamic");
    assert_eq!(AvoidEmptyCatchRule.name(), "avoid_empty_catch");
    assert_eq!(UnusedImportRule.name(), "unused_import");
    assert_eq!(AvoidPrintRule.name(), "avoid_print");
    assert_eq!(AvoidNullCheckOnNullableRule.name(), "avoid_null_check_on_nullable");
}
