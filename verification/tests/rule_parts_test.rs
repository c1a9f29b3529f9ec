use dart_re_analyzer::error::{Diagnostic, RuleCategory, Severity};
use dart_re_analyzer::rules::lines::{is_comment_line, report_spans, run_line_rule, LineRule};
use dart_re_analyzer::rules::runtime::{
    is_used_elsewhere, last_segment_start, strip_dart_end, symbol_from_groups, AvoidPrintRule,
};
use dart_re_analyzer::rules::style::{begins_uppercase, check_file_name, class_from_groups};

fn group(start: usize, text: &str) -> Option<(usize, usize, String)> {
    Some((start, start + text.len(), text.to_string()))
}

#[test]
fn the_name_after_as_comes_before_the_path() {
    let whole = group(0, "import 'package:a/b_c.dart' as bc;");
    let path = group(8, "package:a/b_c.dart");
    assert_eq!(
        symbol_from_groups(&vec![whole.clone(), path.clone(), group(31, "bc")]).as_deref(),
        Some("bc")
    );
    assert_eq!(symbol_from_groups(&vec![whole.clone(), path.clone(), None]).as_deref(), Some("b_c"));
    assert_eq!(symbol_from_groups(&vec![whole.clone(), None, group(31, "bc")]), None);
    assert_eq!(symbol_from_groups(&vec![whole.clone(), path.clone()]), None);
    assert_eq!(symbol_from_groups(&vec![]), None);
    assert_eq!(
        symbol_from_groups(&vec![whole.clone(), group(8, "dart:async"), None]).as_deref(),
        Some("dart:async")
    );
    assert_eq!(
        symbol_from_groups(&vec![whole.clone(), group(8, "a/b/"), None]).as_deref(),
        Some("")
    );
    assert_eq!(
        symbol_from_groups(&vec![whole, group(8, "x/.dart"), None]).as_deref(),
        Some("")
    );
}

#[test]
fn segments_and_suffixes() {
    let chars: Vec<char> = "a/b/c.dart.dart".chars().collect();
    assert_eq!(last_segment_start(&chars), 4);
    assert_eq!(strip_dart_end(&chars, 4), 5);
    assert_eq!(strip_dart_end(&chars, 0), 5);
    let chars: Vec<char> = "plain".chars().collect();
    assert_eq!(last_segment_start(&chars), 0);
    assert_eq!(strip_dart_end(&chars, 0), 5);
    let chars: Vec<char> = ".dart".chars().collect();
    assert_eq!(strip_dart_end(&chars, 0), 0);
    assert_eq!(strip_dart_end(&chars, 1), 5);
    let none: Vec<char> = Vec::new();
    assert_eq!(last_segment_start(&none), 0);
    assert_eq!(strip_dart_end(&none, 0), 0);
}

#[test]
fn a_name_is_used_where_it_occurs_in_another_line() {
    let lines: Vec<Vec<char>> =
        ["import 'x.dart';", "", "x();"].iter().map(|l| l.chars().collect()).collect();
    assert!(is_used_elsewhere(&lines, 0, "x"));
    assert!(is_used_elsewhere(&lines, 2, "x"));
    assert!(!is_used_elsewhere(&lines, 0, "import"));
    assert!(is_used_elsewhere(&lines, 1, "import"));
    assert!(is_used_elsewhere(&lines, 0, ""));
    assert!(!is_used_elsewhere(&vec![lines[0].clone()], 0, ""));
}

#[test]
fn the_class_is_the_first_group() {
    let whole = group(0, "class foo");
    assert_eq!(
        class_from_groups(&vec![whole.clone(), group(6, "foo")]),
        Some((6, 9, "foo".to_string()))
    );
    assert_eq!(class_from_groups(&vec![whole.clone(), None]), None);
    assert_eq!(class_from_groups(&vec![whole]), None);
    assert!(begins_uppercase("Foo"));
    assert!(begins_uppercase("Éa"));
    assert!(!begins_uppercase("foo"));
    assert!(!begins_uppercase("_Foo"));
    assert!(!begins_uppercase(""));
}

#[test]
fn a_file_name_is_checked_by_its_stem() {
    assert!(check_file_name("a/b.dart", None).is_empty());
    assert!(check_file_name("a/b.dart", Some("b")).is_empty());
    let found = check_file_name("a/B.dart", Some("aB"));
    assert_eq!(found.len(), 1);
    assert_eq!(found[0].location.file, "a/B.dart");
    assert_eq!(found[0].message, "File name 'aB' should use snake_case");
    assert_eq!(found[0].suggestion.as_deref(), Some("Rename file to 'a_b.dart'"));
}

fn rule() -> LineRule {
    LineRule {
        pattern: "b+",
        rule_id: "bees",
        message: "A run of b",
        severity: Severity::Info,
        category: RuleCategory::Style,
        suggestion: "Write c",
        skip_comments: false,
        first_only: false,
    }
}

#[test]
fn matches_become_diagnostics_in_their_order() {
    let mut out: Vec<Diagnostic> = Vec::new();
    report_spans(&rule(), "f.dart", 4, &vec![(2, 3), (7, 7)], &mut out);
    report_spans(&rule(), "f.dart", 5, &vec![], &mut out);
    report_spans(&rule(), "g.dart", 0, &vec![(0, 9)], &mut out);
    let told: Vec<(&str, usize, usize, Option<usize>, Option<usize>)> = out
        .iter()
        .map(|d| {
            (
                d.location.file.as_str(),
                d.location.line,
                d.location.column,
                d.location.end_line,
                d.location.end_column,
            )
        })
        .collect();
    assert_eq!(
        told,
        vec![
            ("f.dart", 5, 3, Some(5), Some(4)),
            ("f.dart", 5, 8, Some(5), Some(8)),
            ("g.dart", 1, 1, Some(1), Some(10)),
        ]
    );
    assert!(out.iter().all(|d| d.rule_id == "bees" && d.message == "A run of b"));
    assert!(out.iter().all(|d| d.suggestion.as_deref() == Some("Write c")));
    assert!(matches!(out[0].severity, Severity::Info));
    assert!(matches!(out[0].category, RuleCategory::Style));
}

#[test]
fn a_line_rule_reports_all_first_or_no_matches() {
    let content = "abba bb\n// bb\n  //b\nb";
    let all = run_line_rule(&rule(), "f", content).unwrap();
    let places: Vec<(usize, usize)> = all.iter().map(|d| (d.location.line, d.location.column)).collect();
    assert_eq!(places, vec![(1, 2), (1, 6), (2, 4), (3, 5), (4, 1)]);
    let first = run_line_rule(&LineRule { first_only: true, ..rule() }, "f", content).unwrap();
    let places: Vec<(usize, usize)> = first.iter().map(|d| (d.location.line, d.location.column)).collect();
    assert_eq!(places, vec![(1, 2), (2, 4), (3, 5), (4, 1)]);
    let code = run_line_rule(&LineRule { skip_comments: true, ..rule() }, "f", content).unwrap();
    let places: Vec<(usize, usize)> = code.iter().map(|d| (d.location.line, d.location.column)).collect();
    assert_eq!(places, vec![(1, 2), (1, 6), (4, 1)]);
    let bad = run_line_rule(&LineRule { pattern: "(", ..rule() }, "f", content);
    assert_eq!(bad.unwrap_err().to_string(), "Parse error: Invalid regex pattern");
    assert_eq!(AvoidPrintRule::line_rule().pattern, r"\bprint\s*\(");
}

#[test]
fn comment_lines_begin_with_two_slashes() {
    assert!(is_comment_line("// x"));
    assert!(is_comment_line("  \t//"));
    assert!(is_comment_line("\u{a0}///"));
    assert!(!is_comment_line("/ / x"));
    assert!(!is_comment_line("x // y"));
    assert!(!is_comment_line(""));
    assert!(!is_comment_line("/"));
}
