//! Rules that report the matches of a pattern, line by line.

use crate::error::{
    AnalyzerError, Diagnostic, DiagnosticView, Location, LocationView, RuleCategory, Severity,
};
use crate::pattern::{
    find_all, find_first, regex_compiles, regex_find, regex_find_all, regex_new, regex_source,
};
use crate::text::{
    chars_of, lines_of, split_lines, starts_with_at, trim_start, trim_start_index,
};
use vstd::prelude::*;
use vstd::utf8::encode_utf8;

verus! {

/// A rule that reports matches of a pattern in the lines of a file.
pub struct LineRule {
    pub pattern: &'static str,
    pub rule_id: &'static str,
    pub message: &'static str,
    pub severity: Severity,
    pub category: RuleCategory,
    pub suggestion: &'static str,
    /// Whether lines that begin with `//` are passed over.
    pub skip_comments: bool,
    /// Whether only the first match of a line is reported.
    pub first_only: bool,
}

/// What a `LineRule` holds.
pub ghost struct LineRuleView {
    pub pattern: Seq<char>,
    pub rule_id: Seq<char>,
    pub message: Seq<char>,
    pub severity: Severity,
    pub category: RuleCategory,
    pub suggestion: Seq<char>,
    pub skip_comments: bool,
    pub first_only: bool,
}

impl View for LineRule {
    type V = LineRuleView;

    open spec fn view(&self) -> LineRuleView {
        LineRuleView {
            pattern: self.pattern@,
            rule_id: self.rule_id@,
            message: self.message@,
            severity: self.severity,
            category: self.category,
            suggestion: self.suggestion@,
            skip_comments: self.skip_comments,
            first_only: self.first_only,
        }
    }
}

/// Whether a line is a comment: its first characters after white space
/// are `//`.
pub open spec fn is_comment(line: Seq<char>) -> bool {
    seq!['/', '/'].is_prefix_of(trim_start(line))
}

/// The matches that `rule` reports in `line`.
pub open spec fn reported_spans(rule: LineRuleView, line: Seq<char>) -> Seq<(usize, usize)> {
    if rule.skip_comments && is_comment(line) {
        Seq::empty()
    } else if rule.first_only {
        match regex_find(rule.pattern, line) {
            Some(span) => seq![span],
            None => Seq::empty(),
        }
    } else {
        regex_find_all(rule.pattern, line)
    }
}

/// The diagnostic for a match at the byte offsets `span` in the line with
/// the index `line_index`. Lines and columns are counted from one.
pub open spec fn match_diagnostic(
    rule: LineRuleView,
    file: Seq<char>,
    line_index: int,
    span: (usize, usize),
) -> DiagnosticView {
    DiagnosticView {
        rule_id: rule.rule_id,
        message: rule.message,
        severity: rule.severity,
        category: rule.category,
        location: LocationView {
            file,
            line: (line_index + 1) as usize,
            column: (span.0 + 1) as usize,
            end_line: Some((line_index + 1) as usize),
            end_column: Some((span.1 + 1) as usize),
        },
        suggestion: Some(rule.suggestion),
    }
}

/// The diagnostics for the matches `spans` of one line, in order.
pub open spec fn span_diagnostics(
    rule: LineRuleView,
    file: Seq<char>,
    line_index: int,
    spans: Seq<(usize, usize)>,
) -> Seq<DiagnosticView> {
    Seq::new(spans.len(), |k: int| match_diagnostic(rule, file, line_index, spans[k]))
}

/// The diagnostics of `rule` for the first `upto` of `lines`, line by line.
pub open spec fn line_findings(
    rule: LineRuleView,
    file: Seq<char>,
    lines: Seq<Seq<char>>,
    upto: int,
) -> Seq<DiagnosticView>
    decreases upto,
{
    if upto <= 0 {
        Seq::empty()
    } else {
        line_findings(rule, file, lines, upto - 1) + span_diagnostics(
            rule,
            file,
            upto - 1,
            reported_spans(rule, lines[upto - 1]),
        )
    }
}

/// Whether `line` is a comment.
pub fn is_comment_line(line: &str) -> (r: bool)
    ensures
        r == is_comment(line@),
{
    let chars = chars_of(line);
    let n = chars.len();
    let start = trim_start_index(chars.as_slice(), 0, n);
    let slashes = vec!['/', '/'];
    assert(slashes@ =~= seq!['/', '/']);
    assert(chars@.subrange(0, n as int) =~= chars@);
    starts_with_at(chars.as_slice(), start, n, slashes.as_slice())
}

/// The matches that `rule` reports in `line`.
pub(crate) fn spans_in_line(rule: &LineRule, re: &regex::Regex, line: &str) -> (spans: Vec<
    (usize, usize),
>)
    requires
        regex_source(*re) == rule@.pattern,
    ensures
        spans@ == reported_spans(rule@, line@),
        forall|k: int|
            0 <= k < spans@.len() ==> (#[trigger] spans@[k]).0 <= spans@[k].1 <= encode_utf8(
                line@,
            ).len(),
{
    if rule.skip_comments && is_comment_line(line) {
        Vec::new()
    } else if rule.first_only {
        match find_first(re, line) {
            Some(span) => {
                let mut v: Vec<(usize, usize)> = Vec::new();
                v.push(span);
                assert(v@ =~= seq![span]);
                v
            },
            None => Vec::new(),
        }
    } else {
        find_all(re, line)
    }
}

/// Appends to `out` the diagnostics of `rule` for the matches `spans` in
/// the line with the index `line_index`, in their order. The line's number
/// and the ends of the matches have to be countable from one.
pub fn report_spans(
    rule: &LineRule,
    file_path: &str,
    line_index: usize,
    spans: &Vec<(usize, usize)>,
    out: &mut Vec<Diagnostic>,
)
    requires
        line_index < usize::MAX,
        forall|j: int|
            0 <= j < spans@.len() ==> (#[trigger] spans@[j]).0 <= spans@[j].1 < usize::MAX,
    ensures
        final(out).deep_view() == old(out).deep_view() + span_diagnostics(
            rule@,
            file_path@,
            line_index as int,
            spans@,
        ),
{
    let ghost before = out.deep_view();
    let mut k: usize = 0;
    assert(out.deep_view() =~= before + span_diagnostics(
        rule@,
        file_path@,
        line_index as int,
        spans@.take(0),
    ));
    while k < spans.len()
        invariant
            k <= spans@.len(),
            line_index < usize::MAX,
            forall|j: int|
                0 <= j < spans@.len() ==> (#[trigger] spans@[j]).0 <= spans@[j].1 < usize::MAX,
            out.deep_view() == before + span_diagnostics(
                rule@,
                file_path@,
                line_index as int,
                spans@.take(k as int),
            ),
        decreases spans@.len() - k,
    {
        let span = spans[k];
        let diagnostic = Diagnostic::new(
            rule.rule_id,
            rule.message,
            rule.severity,
            rule.category,
            Location {
                file: file_path.to_owned(),
                line: line_index + 1,
                column: span.0 + 1,
                end_line: Some(line_index + 1),
                end_column: Some(span.1 + 1),
            },
        ).with_suggestion(rule.suggestion);
        let ghost so_far = out.deep_view();
        out.push(diagnostic);
        proof {
            assert(out.deep_view() =~= so_far.push(diagnostic@));
            assert(diagnostic@ == match_diagnostic(rule@, file_path@, line_index as int, span));
            assert(span_diagnostics(rule@, file_path@, line_index as int, spans@.take(k + 1))
                =~= span_diagnostics(
                rule@,
                file_path@,
                line_index as int,
                spans@.take(k as int),
            ).push(diagnostic@));
        }
        k += 1;
    }
    assert(spans@.take(k as int) =~= spans@);
}

/// Checks the lines of `content` with `rule`, whose pattern `re` was
/// compiled from: one diagnostic for each reported match, in the order
/// of the lines and of the matches in a line.
pub(crate) fn check_lines(
    rule: &LineRule,
    re: &regex::Regex,
    file_path: &str,
    content: &str,
) -> (out: Vec<Diagnostic>)
    requires
        regex_source(*re) == rule@.pattern,
        encode_utf8(content@).len() < usize::MAX,
    ensures
        out.deep_view() == line_findings(
            rule@,
            file_path@,
            lines_of(content@),
            lines_of(content@).len() as int,
        ),
{
    let lines = split_lines(content);
    let mut out: Vec<Diagnostic> = Vec::new();
    let n = lines.len();
    let mut i: usize = 0;
    assert(out.deep_view() =~= Seq::<DiagnosticView>::empty());
    while i < n
        invariant
            n == lines@.len(),
            i <= lines@.len(),
            lines.deep_view() == lines_of(content@),
            regex_source(*re) == rule@.pattern,
            encode_utf8(content@).len() < usize::MAX,
            forall|k: int|
                0 <= k < lines@.len() ==> encode_utf8((#[trigger] lines@[k])@).len() <= encode_utf8(
                    content@,
                ).len(),
            out.deep_view() == line_findings(rule@, file_path@, lines_of(content@), i as int),
        decreases lines@.len() - i,
    {
        let line = lines[i].as_str();
        assert(line@ == lines.deep_view()[i as int]);
        let spans = spans_in_line(rule, re, line);
        report_spans(rule, file_path, i, &spans, &mut out);
        i += 1;
    }
    out
}

/// What `rule` finds in a file: the diagnostics of all its lines, or
/// `None` where the rule's pattern does not compile.
pub open spec fn line_rule_findings(
    rule: LineRuleView,
    file: Seq<char>,
    content: Seq<char>,
) -> Option<Seq<DiagnosticView>> {
    if regex_compiles(rule.pattern) {
        Some(line_findings(rule, file, lines_of(content), lines_of(content).len() as int))
    } else {
        None
    }
}

/// Compiles the pattern of `rule` and checks the lines of `content`.
pub fn run_line_rule(rule: &LineRule, file_path: &str, content: &str) -> (r: Result<
    Vec<Diagnostic>,
    AnalyzerError,
>)
    requires
        encode_utf8(content@).len() < usize::MAX,
    ensures
        match r {
            Ok(list) => line_rule_findings(rule@, file_path@, content@) == Some(list.deep_view()),
            Err(_) => line_rule_findings(rule@, file_path@, content@) is None,
        },
{
    match regex_new(rule.pattern) {
        Ok(re) => Ok(check_lines(rule, &re, file_path, content)),
        Err(_) => Err(AnalyzerError::Parse("Invalid regex pattern".to_owned())),
    }
}

} // verus!
