//! Rules about what a program does when it runs.

use crate::analyzer::Rule;
use crate::error::{
    AnalyzerError, Diagnostic, DiagnosticView, Location, LocationView, RuleCategory, Severity,
};
use crate::pattern::{captures, regex_captures, regex_compiles, regex_new, regex_source};
use crate::rules::lines::{line_rule_findings, run_line_rule, LineRule, LineRuleView};
use crate::text::{
    chars_of, contains, contains_chars, ends_with_at, lines_of, split_lines, string_of,
};
use vstd::prelude::*;
use vstd::utf8::encode_utf8;

verus! {

/// Reports every use of the type `dynamic`.
#[derive(Debug, Clone, Copy)]
pub struct AvoidDynamicRule;

impl AvoidDynamicRule {
    /// The pattern, the texts and the classification of the rule.
    pub open spec fn rule() -> LineRuleView {
        LineRuleView {
            pattern: r"\bdynamic\b"@,
            rule_id: "avoid_dynamic"@,
            message: "Avoid using 'dynamic' type as it bypasses type safety"@,
            severity: Severity::Warning,
            category: RuleCategory::Runtime,
            suggestion: "Use a specific type or Object? instead"@,
            skip_comments: true,
            first_only: false,
        }
    }

    /// The rule, as `run_line_rule` takes it.
    pub fn line_rule() -> (r: LineRule)
        ensures
            r@ == Self::rule(),
    {
        LineRule {
            pattern: r"\bdynamic\b",
            rule_id: "avoid_dynamic",
            message: "Avoid using 'dynamic' type as it bypasses type safety",
            severity: Severity::Warning,
            category: RuleCategory::Runtime,
            suggestion: "Use a specific type or Object? instead",
            skip_comments: true,
            first_only: false,
        }
    }
}

impl Rule for AvoidDynamicRule {
    open spec fn rule_id(&self) -> Seq<char> {
        "avoid_dynamic"@
    }

    open spec fn findings(&self, file_path: Seq<char>, content: Seq<char>) -> Option<
        Seq<DiagnosticView>,
    > {
        line_rule_findings(Self::rule(), file_path, content)
    }

    fn name(&self) -> (r: &str) {
        "avoid_dynamic"
    }

    fn check(&self, file_path: &str, content: &str) -> (r: Result<Vec<Diagnostic>, AnalyzerError>) {
        run_line_rule(&Self::line_rule(), file_path, content)
    }
}

/// Reports the first empty `catch` block of each line.
#[derive(Debug, Clone, Copy)]
pub struct AvoidEmptyCatchRule;

impl AvoidEmptyCatchRule {
    /// The pattern, the texts and the classification of the rule.
    pub open spec fn rule() -> LineRuleView {
        LineRuleView {
            pattern: r"catch\s*\([^)]*\)\s*\{\s*\}"@,
            rule_id: "avoid_empty_catch"@,
            message: "Empty catch block swallows exceptions silently"@,
            severity: Severity::Error,
            category: RuleCategory::Runtime,
            suggestion: "Handle the exception or at least log it"@,
            skip_comments: false,
            first_only: true,
        }
    }

    /// The rule, as `run_line_rule` takes it.
    pub fn line_rule() -> (r: LineRule)
        ensures
            r@ == Self::rule(),
    {
        LineRule {
            pattern: r"catch\s*\([^)]*\)\s*\{\s*\}",
            rule_id: "avoid_empty_catch",
            message: "Empty catch block swallows exceptions silently",
            severity: Severity::Error,
            category: RuleCategory::Runtime,
            suggestion: "Handle the exception or at least log it",
            skip_comments: false,
            first_only: true,
        }
    }
}

impl Rule for AvoidEmptyCatchRule {
    open spec fn rule_id(&self) -> Seq<char> {
        "avoid_empty_catch"@
    }

    open spec fn findings(&self, file_path: Seq<char>, content: Seq<char>) -> Option<
        Seq<DiagnosticView>,
    > {
        line_rule_findings(Self::rule(), file_path, content)
    }

    fn name(&self) -> (r: &str) {
        "avoid_empty_catch"
    }

    fn check(&self, file_path: &str, content: &str) -> (r: Result<Vec<Diagnostic>, AnalyzerError>) {
        run_line_rule(&Self::line_rule(), file_path, content)
    }
}

/// Reports every call of `print`.
#[derive(Debug, Clone, Copy)]
pub struct AvoidPrintRule;

impl AvoidPrintRule {
    /// The pattern, the texts and the classification of the rule.
    pub open spec fn rule() -> LineRuleView {
        LineRuleView {
            pattern: r"\bprint\s*\("@,
            rule_id: "avoid_print"@,
            message: "Avoid using 'print' in production code"@,
            severity: Severity::Info,
            category: RuleCategory::Runtime,
            suggestion: "Use a proper logging library like logger or developer.log"@,
            skip_comments: true,
            first_only: false,
        }
    }

    /// The rule, as `run_line_rule` takes it.
    pub fn line_rule() -> (r: LineRule)
        ensures
            r@ == Self::rule(),
    {
        LineRule {
            pattern: r"\bprint\s*\(",
            rule_id: "avoid_print",
            message: "Avoid using 'print' in production code",
            severity: Severity::Info,
            category: RuleCategory::Runtime,
            suggestion: "Use a proper logging library like logger or developer.log",
            skip_comments: true,
            first_only: false,
        }
    }
}

impl Rule for AvoidPrintRule {
    open spec fn rule_id(&self) -> Seq<char> {
        "avoid_print"@
    }

    open spec fn findings(&self, file_path: Seq<char>, content: Seq<char>) -> Option<
        Seq<DiagnosticView>,
    > {
        line_rule_findings(Self::rule(), file_path, content)
    }

    fn name(&self) -> (r: &str) {
        "avoid_print"
    }

    fn check(&self, file_path: &str, content: &str) -> (r: Result<Vec<Diagnostic>, AnalyzerError>) {
        run_line_rule(&Self::line_rule(), file_path, content)
    }
}

/// Reports every use of the null assertion operator before a member
/// access.
#[derive(Debug, Clone, Copy)]
pub struct AvoidNullCheckOnNullableRule;

impl AvoidNullCheckOnNullableRule {
    /// The pattern, the texts and the classification of the rule.
    pub open spec fn rule() -> LineRuleView {
        LineRuleView {
            pattern: r"([a-zA-Z_][a-zA-Z0-9_]*)\!\."@,
            rule_id: "avoid_null_check_on_nullable"@,
            message: "Using null assertion operator (!) can cause runtime errors if value is null"@,
            severity: Severity::Warning,
            category: RuleCategory::Runtime,
            suggestion: "Use null-aware operators (?., ??) or null checks instead"@,
            skip_comments: true,
            first_only: false,
        }
    }

    /// The rule, as `run_line_rule` takes it.
    pub fn line_rule() -> (r: LineRule)
        ensures
            r@ == Self::rule(),
    {
        LineRule {
            pattern: r"([a-zA-Z_][a-zA-Z0-9_]*)\!\.",
            rule_id: "avoid_null_check_on_nullable",
            message: "Using null assertion operator (!) can cause runtime errors if value is null",
            severity: Severity::Warning,
            category: RuleCategory::Runtime,
            suggestion: "Use null-aware operators (?., ??) or null checks instead",
            skip_comments: true,
            first_only: false,
        }
    }
}

impl Rule for AvoidNullCheckOnNullableRule {
    open spec fn rule_id(&self) -> Seq<char> {
        "avoid_null_check_on_nullable"@
    }

    open spec fn findings(&self, file_path: Seq<char>, content: Seq<char>) -> Option<
        Seq<DiagnosticView>,
    > {
        line_rule_findings(Self::rule(), file_path, content)
    }

    fn name(&self) -> (r: &str) {
        "avoid_null_check_on_nullable"
    }

    fn check(&self, file_path: &str, content: &str) -> (r: Result<Vec<Diagnostic>, AnalyzerError>) {
        run_line_rule(&Self::line_rule(), file_path, content)
    }
}

/// Reports imports whose name occurs in no other line of the file. The
/// test is on the text alone: it knows nothing of what the names mean.
#[derive(Debug, Clone, Copy)]
pub struct UnusedImportRule;

/// The pattern of an import line: the imported path is its first group, the
/// name after `as` its second.
pub open spec fn import_pattern() -> Seq<char> {
    r#"(?m)^import\s+['"]([^'"]+)['"](?:\s+as\s+(\w+))?;"#@
}

/// What follows the last `/` of `path`; all of it where it has none.
pub open spec fn last_segment(path: Seq<char>) -> Seq<char>
    decreases path.len(),
{
    if path.len() == 0 || path.last() == '/' {
        Seq::empty()
    } else {
        last_segment(path.drop_last()).push(path.last())
    }
}

/// The file suffix of Dart sources.
pub open spec fn dart_suffix() -> Seq<char> {
    seq!['.', 'd', 'a', 'r', 't']
}

/// `s` without the Dart suffix at its end, however often it is repeated.
pub open spec fn strip_dart(s: Seq<char>) -> Seq<char>
    decreases s.len(),
{
    if dart_suffix().is_suffix_of(s) {
        strip_dart(s.take(s.len() - dart_suffix().len()))
    } else {
        s
    }
}

/// The name by which a file would use what the import line `line` brings
/// in: the name after `as`, else the imported path's last segment without
/// the Dart suffix. `None` where the line is no import.
pub open spec fn imported_symbol(line: Seq<char>) -> Option<Seq<char>> {
    match regex_captures(import_pattern(), line) {
        Some(groups) => symbol_of(groups),
        None => None,
    }
}

/// The name that the groups of a matched import line give: what the second
/// group matched, else the last segment of what the first one matched,
/// without the Dart suffix. `None` where the first group matched nothing.
pub open spec fn symbol_of(groups: Seq<Option<(usize, usize, Seq<char>)>>) -> Option<Seq<char>> {
    if groups.len() >= 3 && groups[1] is Some {
        match groups[2] {
            Some(alias) => Some(alias.2),
            None => Some(strip_dart(last_segment(groups[1].unwrap().2))),
        }
    } else {
        None
    }
}

/// Whether `symbol` occurs in a line other than the one with the index
/// `index`.
pub open spec fn used_elsewhere(lines: Seq<Seq<char>>, index: int, symbol: Seq<char>) -> bool {
    exists|j: int| 0 <= j < lines.len() && j != index && contains(#[trigger] lines[j], symbol)
}

/// The diagnostic for the unused import of `symbol` in the line `line`
/// with the index `index`: it covers the whole line.
pub open spec fn unused_import_diagnostic(
    file: Seq<char>,
    index: int,
    symbol: Seq<char>,
    line: Seq<char>,
) -> DiagnosticView {
    DiagnosticView {
        rule_id: "unused_import"@,
        message: "Import '"@ + symbol + "' is unused"@,
        severity: Severity::Warning,
        category: RuleCategory::Runtime,
        location: LocationView {
            file,
            line: (index + 1) as usize,
            column: 1,
            end_line: Some((index + 1) as usize),
            end_column: Some(encode_utf8(line).len() as usize),
        },
        suggestion: Some("Remove this unused import"@),
    }
}

/// The diagnostics for the unused imports among the first `upto` of
/// `lines`, in the order of the lines.
pub open spec fn unused_imports(file: Seq<char>, lines: Seq<Seq<char>>, upto: int) -> Seq<
    DiagnosticView,
>
    decreases upto,
{
    if upto <= 0 {
        Seq::empty()
    } else {
        let before = unused_imports(file, lines, upto - 1);
        match imported_symbol(lines[upto - 1]) {
            Some(symbol) => if used_elsewhere(lines, upto - 1, symbol) {
                before
            } else {
                before.push(unused_import_diagnostic(file, upto - 1, symbol, lines[upto - 1]))
            },
            None => before,
        }
    }
}

/// The index at which the last segment of `chars` starts.
pub fn last_segment_start(chars: &[char]) -> (k: usize)
    ensures
        k <= chars@.len(),
        chars@.subrange(k as int, chars@.len() as int) == last_segment(chars@),
{
    let n = chars.len();
    let mut k: usize = n;
    assert(chars@.subrange(0, n as int) =~= chars@);
    assert(last_segment(chars@) =~= last_segment(chars@.subrange(0, n as int)) + chars@.subrange(
        n as int,
        n as int,
    ));
    while k > 0 && chars[k - 1] != '/'
        invariant
            k <= n,
            n == chars@.len(),
            last_segment(chars@) == last_segment(chars@.subrange(0, k as int)) + chars@.subrange(
                k as int,
                n as int,
            ),
        decreases k,
    {
        proof {
            let head = chars@.subrange(0, k as int);
            assert(head.drop_last() =~= chars@.subrange(0, k - 1));
            assert(last_segment(head.drop_last()).push(head.last()) + chars@.subrange(
                k as int,
                n as int,
            ) =~= last_segment(head.drop_last()) + chars@.subrange(k - 1, n as int));
        }
        k -= 1;
    }
    assert(last_segment(chars@.subrange(0, k as int)) =~= Seq::<char>::empty());
    assert(last_segment(chars@) =~= chars@.subrange(k as int, n as int));
    k
}

/// The index at which `chars[from..]` without its Dart suffixes ends.
pub fn strip_dart_end(chars: &[char], from: usize) -> (end: usize)
    requires
        from <= chars@.len(),
    ensures
        from <= end <= chars@.len(),
        chars@.subrange(from as int, end as int) == strip_dart(
            chars@.subrange(from as int, chars@.len() as int),
        ),
{
    let suffix = vec!['.', 'd', 'a', 'r', 't'];
    assert(suffix@ =~= dart_suffix());
    let mut end: usize = chars.len();
    while ends_with_at(chars, from, end, suffix.as_slice())
        invariant
            from <= end <= chars@.len(),
            suffix@ == dart_suffix(),
            strip_dart(chars@.subrange(from as int, end as int)) == strip_dart(
                chars@.subrange(from as int, chars@.len() as int),
            ),
        decreases end,
    {
        assert(chars@.subrange(from as int, end as int).take(end - from - 5) =~= chars@.subrange(
            from as int,
            end - 5,
        ));
        end -= 5;
    }
    end
}

/// The name that the groups of a matched import line give.
pub fn symbol_from_groups(groups: &Vec<Option<(usize, usize, String)>>) -> (r: Option<String>)
    ensures
        r.deep_view() == symbol_of(groups.deep_view()),
{
    if groups.len() < 3 {
        return None;
    }
    assert(groups.deep_view()[1] == groups@[1].deep_view());
    assert(groups.deep_view()[2] == groups@[2].deep_view());
    match &groups[1] {
        None => None,
        Some(path) => match &groups[2] {
            Some(alias) => Some(alias.2.clone()),
            None => {
                let chars = chars_of(path.2.as_str());
                let start = last_segment_start(chars.as_slice());
                let end = strip_dart_end(chars.as_slice(), start);
                Some(string_of(chars.as_slice(), start, end))
            },
        },
    }
}

/// The name by which a file would use what the import line `line` brings
/// in, the pattern of imports having been compiled to `re`.
pub(crate) fn import_symbol(re: &regex::Regex, line: &str) -> (r: Option<String>)
    requires
        regex_source(*re) == import_pattern(),
    ensures
        r.deep_view() == imported_symbol(line@),
{
    match captures(re, line) {
        None => None,
        Some(groups) => symbol_from_groups(&groups),
    }
}

/// Whether `symbol` occurs in a line other than the one with the index
/// `index`.
pub fn is_used_elsewhere(lines: &Vec<Vec<char>>, index: usize, symbol: &str) -> (r: bool)
    ensures
        r == used_elsewhere(lines.deep_view(), index as int, symbol@),
{
    let wanted = chars_of(symbol);
    let mut j: usize = 0;
    while j < lines.len()
        invariant
            j <= lines@.len(),
            wanted@ == symbol@,
            forall|k: int|
                0 <= k < j && k != index ==> !contains(#[trigger] lines.deep_view()[k], symbol@),
        decreases lines@.len() - j,
    {
        assert(lines.deep_view()[j as int] == lines@[j as int]@);
        if j != index && contains_chars(lines[j].as_slice(), wanted.as_slice()) {
            return true;
        }
        j += 1;
    }
    false
}

impl Rule for UnusedImportRule {
    open spec fn rule_id(&self) -> Seq<char> {
        "unused_import"@
    }

    open spec fn findings(&self, file_path: Seq<char>, content: Seq<char>) -> Option<
        Seq<DiagnosticView>,
    > {
        if regex_compiles(import_pattern()) {
            Some(unused_imports(file_path, lines_of(content), lines_of(content).len() as int))
        } else {
            None
        }
    }

    fn name(&self) -> (r: &str) {
        "unused_import"
    }

    fn check(&self, file_path: &str, content: &str) -> (r: Result<Vec<Diagnostic>, AnalyzerError>) {
        let re = match regex_new(r#"(?m)^import\s+['"]([^'"]+)['"](?:\s+as\s+(\w+))?;"#) {
            Ok(re) => re,
            Err(_) => {
                return Err(AnalyzerError::Parse("Invalid regex pattern".to_owned()));
            },
        };
        let lines = split_lines(content);
        let n = lines.len();
        let mut line_chars: Vec<Vec<char>> = Vec::new();
        let mut c: usize = 0;
        while c < n
            invariant
                n == lines@.len(),
                c <= n,
                line_chars@.len() == c,
                forall|k: int| 0 <= k < c ==> (#[trigger] line_chars@[k])@ == lines@[k]@,
            decreases n - c,
        {
            line_chars.push(chars_of(lines[c].as_str()));
            c += 1;
        }
        assert forall|k: int| 0 <= k < n implies #[trigger] line_chars.deep_view()[k]
            == lines.deep_view()[k] by {
            assert(line_chars@[k].deep_view() =~= line_chars@[k]@);
        }
        assert(line_chars.deep_view() =~= lines.deep_view());
        let mut out: Vec<Diagnostic> = Vec::new();
        let mut i: usize = 0;
        assert(out.deep_view() =~= Seq::<DiagnosticView>::empty());
        while i < n
            invariant
                n == lines@.len(),
                i <= n,
                regex_source(re) == import_pattern(),
                lines.deep_view() == lines_of(content@),
                line_chars.deep_view() == lines.deep_view(),
                out.deep_view() == unused_imports(file_path@, lines_of(content@), i as int),
            decreases n - i,
        {
            let line = lines[i].as_str();
            assert(line@ == lines.deep_view()[i as int]);
            match import_symbol(&re, line) {
                Some(symbol) => {
                    if !is_used_elsewhere(&line_chars, i, symbol.as_str()) {
                        let mut message = "Import '".to_owned();
                        message.append(symbol.as_str());
                        message.append("' is unused");
                        let diagnostic = Diagnostic::new(
                            "unused_import",
                            message.as_str(),
                            Severity::Warning,
                            RuleCategory::Runtime,
                            Location {
                                file: file_path.to_owned(),
                                line: i + 1,
                                column: 1,
                                end_line: Some(i + 1),
                                end_column: Some(line.as_bytes().len()),
                            },
                        ).with_suggestion("Remove this unused import");
                        let ghost so_far = out.deep_view();
                        out.push(diagnostic);
                        assert(out.deep_view() =~= so_far.push(diagnostic@));
                    }
                },
                None => {},
            }
            i += 1;
        }
        Ok(out)
    }
}

} // verus!
