//! Rules about how a program is written.

use crate::analyzer::Rule;
use crate::error::{
    AnalyzerError, Diagnostic, DiagnosticView, Location, LocationView, RuleCategory, Severity,
};
use crate::paths::{file_stem, path_file_stem};
use crate::pattern::{captures, regex_captures, regex_compiles, regex_new, regex_source};
use crate::text::{
    any_uppercase, char_is_uppercase, char_lower, char_upper, chars_of, decimal, decimal_string,
    has_uppercase, is_uppercase, lines_of, split_lines, string_of_all, to_lower, to_upper,
};
use vstd::prelude::*;
use vstd::utf8::encode_utf8;

verus! {

/// `s` in camel case: the underscores are left out, and the first
/// character and each one after an underscore is put in upper case.
/// `capitalize` tells whether the next character is one of these.
pub open spec fn camel_case(s: Seq<char>, capitalize: bool) -> Seq<char>
    decreases s.len(),
{
    if s.len() == 0 {
        Seq::empty()
    } else if s[0] == '_' {
        camel_case(s.skip(1), true)
    } else if capitalize {
        seq![char_upper(s[0])] + camel_case(s.skip(1), false)
    } else {
        seq![s[0]] + camel_case(s.skip(1), false)
    }
}

/// `s` in snake case: each upper-case character is put in lower case,
/// after an underscore unless it is the first. `at_start` tells whether
/// the next character is the first.
pub open spec fn snake_case(s: Seq<char>, at_start: bool) -> Seq<char>
    decreases s.len(),
{
    if s.len() == 0 {
        Seq::empty()
    } else if char_is_uppercase(s[0]) {
        (if at_start {
            seq![char_lower(s[0])]
        } else {
            seq!['_', char_lower(s[0])]
        }) + snake_case(s.skip(1), false)
    } else {
        seq![s[0]] + snake_case(s.skip(1), false)
    }
}

/// Writes a name in camel case.
pub fn to_camel_case(s: &str) -> (r: String)
    ensures
        r@ == camel_case(s@, true),
{
    let chars = chars_of(s);
    let mut result: Vec<char> = Vec::new();
    let mut capitalize_next = true;
    let mut i: usize = 0;
    assert(chars@.skip(0) =~= chars@);
    while i < chars.len()
        invariant
            i <= chars@.len(),
            chars@ == s@,
            result@ + camel_case(chars@.skip(i as int), capitalize_next) == camel_case(s@, true),
        decreases chars@.len() - i,
    {
        let c = chars[i];
        let ghost rest = chars@.skip(i as int);
        let ghost before = result@;
        proof {
            assert(rest[0] == c);
            assert(rest.skip(1) =~= chars@.skip(i + 1));
        }
        if c == '_' {
            capitalize_next = true;
        } else if capitalize_next {
            result.push(to_upper(c));
            capitalize_next = false;
            assert(result@ + camel_case(chars@.skip(i + 1), false) =~= before + camel_case(
                rest,
                true,
            ));
        } else {
            result.push(c);
            assert(result@ + camel_case(chars@.skip(i + 1), false) =~= before + camel_case(
                rest,
                false,
            ));
        }
        i += 1;
    }
    assert(result@ + camel_case(chars@.skip(i as int), capitalize_next) =~= result@);
    string_of_all(result.as_slice())
}

/// Writes a name in snake case.
pub fn to_snake_case(s: &str) -> (r: String)
    ensures
        r@ == snake_case(s@, true),
{
    let chars = chars_of(s);
    let mut result: Vec<char> = Vec::new();
    let mut i: usize = 0;
    assert(chars@.skip(0) =~= chars@);
    while i < chars.len()
        invariant
            i <= chars@.len(),
            chars@ == s@,
            result@ + snake_case(chars@.skip(i as int), i == 0) == snake_case(s@, true),
        decreases chars@.len() - i,
    {
        let c = chars[i];
        let ghost rest = chars@.skip(i as int);
        let ghost before = result@;
        proof {
            assert(rest[0] == c);
            assert(rest.skip(1) =~= chars@.skip(i + 1));
        }
        if is_uppercase(c) {
            if i > 0 {
                result.push('_');
            }
            result.push(to_lower(c));
        } else {
            result.push(c);
        }
        assert(result@ + snake_case(chars@.skip(i + 1), false) =~= before + snake_case(
            rest,
            i == 0,
        ));
        i += 1;
    }
    assert(result@ + snake_case(chars@.skip(i as int), i == 0) =~= result@);
    string_of_all(result.as_slice())
}

/// Reports classes whose name does not begin with an upper-case character.
#[derive(Debug, Clone, Copy)]
pub struct CamelCaseClassNameRule;

/// The pattern of a class declaration: the class's name is its first group.
pub open spec fn class_pattern() -> Seq<char> {
    r"(?m)^[\s]*(?:abstract\s+)?class\s+([a-zA-Z_][a-zA-Z0-9_]*)"@
}

/// The name of the class that `line` declares, with the byte offsets of
/// its start and its end.
pub open spec fn declared_class(line: Seq<char>) -> Option<(usize, usize, Seq<char>)> {
    match regex_captures(class_pattern(), line) {
        Some(groups) => class_of(groups),
        None => None,
    }
}

/// The class name among the groups of a matched class declaration: what
/// the first group matched.
pub open spec fn class_of(groups: Seq<Option<(usize, usize, Seq<char>)>>) -> Option<
    (usize, usize, Seq<char>),
> {
    if groups.len() >= 2 {
        groups[1]
    } else {
        None
    }
}

/// Whether `name` begins with an upper-case character.
pub open spec fn starts_uppercase(name: Seq<char>) -> bool {
    name.len() > 0 && char_is_uppercase(name[0])
}

/// The diagnostic for the class name `class` in the line with the index
/// `index`.
pub open spec fn class_name_diagnostic(
    file: Seq<char>,
    index: int,
    class: (usize, usize, Seq<char>),
) -> DiagnosticView {
    DiagnosticView {
        rule_id: "camel_case_class_names"@,
        message: "Class name '"@ + class.2 + "' should use CamelCase (start with uppercase)"@,
        severity: Severity::Warning,
        category: RuleCategory::Style,
        location: LocationView {
            file,
            line: (index + 1) as usize,
            column: (class.0 + 1) as usize,
            end_line: Some((index + 1) as usize),
            end_column: Some((class.1 + 1) as usize),
        },
        suggestion: Some("Rename to '"@ + camel_case(class.2, true) + "'"@),
    }
}

/// The diagnostics for the class names among the first `upto` of `lines`.
pub open spec fn class_name_findings(file: Seq<char>, lines: Seq<Seq<char>>, upto: int) -> Seq<
    DiagnosticView,
>
    decreases upto,
{
    if upto <= 0 {
        Seq::empty()
    } else {
        let before = class_name_findings(file, lines, upto - 1);
        match declared_class(lines[upto - 1]) {
            Some(class) => if starts_uppercase(class.2) {
                before
            } else {
                before.push(class_name_diagnostic(file, upto - 1, class))
            },
            None => before,
        }
    }
}

/// The class name among the groups of a matched class declaration.
pub fn class_from_groups(groups: &Vec<Option<(usize, usize, String)>>) -> (r: Option<
    (usize, usize, String),
>)
    ensures
        r.deep_view() == class_of(groups.deep_view()),
{
    if groups.len() < 2 {
        return None;
    }
    assert(groups.deep_view()[1] == groups@[1].deep_view());
    match &groups[1] {
        Some(class) => Some((class.0, class.1, class.2.clone())),
        None => None,
    }
}

/// The class that `line` declares, the pattern of class declarations
/// having been compiled to `re`.
pub(crate) fn class_in_line(re: &regex::Regex, line: &str) -> (r: Option<(usize, usize, String)>)
    requires
        regex_source(*re) == class_pattern(),
    ensures
        r.deep_view() == declared_class(line@),
        r matches Some(class) ==> class.0 <= class.1 <= encode_utf8(line@).len(),
{
    match captures(re, line) {
        None => None,
        Some(groups) => {
            let r = class_from_groups(&groups);
            proof {
                if groups@.len() >= 2 {
                    assert(groups.deep_view()[1] == groups@[1].deep_view());
                }
            }
            r
        },
    }
}

/// Whether `name` begins with an upper-case character.
pub fn begins_uppercase(name: &str) -> (r: bool)
    ensures
        r == starts_uppercase(name@),
{
    let chars = chars_of(name);
    chars.len() > 0 && is_uppercase(chars[0])
}

impl Rule for CamelCaseClassNameRule {
    open spec fn rule_id(&self) -> Seq<char> {
        "camel_case_class_names"@
    }

    open spec fn findings(&self, file_path: Seq<char>, content: Seq<char>) -> Option<
        Seq<DiagnosticView>,
    > {
        if regex_compiles(class_pattern()) {
            Some(class_name_findings(file_path, lines_of(content), lines_of(content).len() as int))
        } else {
            None
        }
    }

    fn name(&self) -> (r: &str) {
        "camel_case_class_names"
    }

    fn check(&self, file_path: &str, content: &str) -> (r: Result<Vec<Diagnostic>, AnalyzerError>) {
        let re = match regex_new(r"(?m)^[\s]*(?:abstract\s+)?class\s+([a-zA-Z_][a-zA-Z0-9_]*)") {
            Ok(re) => re,
            Err(_) => {
                return Err(AnalyzerError::Parse("Invalid regex pattern".to_owned()));
            },
        };
        let lines = split_lines(content);
        let n = lines.len();
        let mut out: Vec<Diagnostic> = Vec::new();
        let mut i: usize = 0;
        assert(out.deep_view() =~= Seq::<DiagnosticView>::empty());
        while i < n
            invariant
                n == lines@.len(),
                i <= n,
                regex_source(re) == class_pattern(),
                encode_utf8(content@).len() < usize::MAX,
                lines.deep_view() == lines_of(content@),
                forall|k: int|
                    0 <= k < lines@.len() ==> encode_utf8((#[trigger] lines@[k])@).len()
                        <= encode_utf8(content@).len(),
                out.deep_view() == class_name_findings(file_path@, lines_of(content@), i as int),
            decreases n - i,
        {
            let line = lines[i].as_str();
            assert(line@ == lines.deep_view()[i as int]);
            match class_in_line(&re, line) {
                Some(class) => {
                    if !begins_uppercase(class.2.as_str()) {
                        let mut message = "Class name '".to_owned();
                        message.append(class.2.as_str());
                        message.append("' should use CamelCase (start with uppercase)");
                        let mut suggestion = "Rename to '".to_owned();
                        suggestion.append(to_camel_case(class.2.as_str()).as_str());
                        suggestion.append("'");
                        let diagnostic = Diagnostic::new(
                            "camel_case_class_names",
                            message.as_str(),
                            Severity::Warning,
                            RuleCategory::Style,
                            Location {
                                file: file_path.to_owned(),
                                line: i + 1,
                                column: class.0 + 1,
                                end_line: Some(i + 1),
                                end_column: Some(class.1 + 1),
                            },
                        ).with_suggestion(suggestion.as_str());
                        let ghost so_far = out.deep_view();
                        out.push(diagnostic);
                        assert(out.deep_view() =~= so_far.push(diagnostic@));
                    }
                },
                None => {},
            }
            i += 1;
        }
        Ok(out)
    }
}

/// Reports a file whose name has an upper-case character.
#[derive(Debug, Clone, Copy)]
pub struct SnakeCaseFileNameRule;

/// The diagnostic for the file `file` whose name without its extension is
/// `stem`.
pub open spec fn file_name_diagnostic(file: Seq<char>, stem: Seq<char>) -> DiagnosticView {
    DiagnosticView {
        rule_id: "snake_case_file_names"@,
        message: "File name '"@ + stem + "' should use snake_case"@,
        severity: Severity::Warning,
        category: RuleCategory::Style,
        location: LocationView { file, line: 1, column: 1, end_line: None, end_column: None },
        suggestion: Some("Rename file to '"@ + snake_case(stem, true) + ".dart'"@),
    }
}

/// What the rule finds for a file whose name without its extension is
/// `stem`.
pub open spec fn file_name_findings(file: Seq<char>, stem: Option<Seq<char>>) -> Seq<
    DiagnosticView,
> {
    match stem {
        Some(stem) => if has_uppercase(stem) {
            seq![file_name_diagnostic(file, stem)]
        } else {
            Seq::empty()
        },
        None => Seq::empty(),
    }
}

/// Checks the name of a file, given without its extension.
pub fn check_file_name(file_path: &str, stem: Option<&str>) -> (out: Vec<Diagnostic>)
    ensures
        out.deep_view() == file_name_findings(file_path@, stem.deep_view()),
{
    let mut out: Vec<Diagnostic> = Vec::new();
    assert(out.deep_view() =~= Seq::<DiagnosticView>::empty());
    match stem {
        Some(stem) => {
            let chars = chars_of(stem);
            if any_uppercase(chars.as_slice()) {
                let mut message = "File name '".to_owned();
                message.append(stem);
                message.append("' should use snake_case");
                let mut suggestion = "Rename file to '".to_owned();
                suggestion.append(to_snake_case(stem).as_str());
                suggestion.append(".dart'");
                let diagnostic = Diagnostic::new(
                    "snake_case_file_names",
                    message.as_str(),
                    Severity::Warning,
                    RuleCategory::Style,
                    Location {
                        file: file_path.to_owned(),
                        line: 1,
                        column: 1,
                        end_line: None,
                        end_column: None,
                    },
                ).with_suggestion(suggestion.as_str());
                out.push(diagnostic);
                assert(out.deep_view() =~= seq![diagnostic@]);
            }
        },
        None => {},
    }
    out
}

impl Rule for SnakeCaseFileNameRule {
    open spec fn rule_id(&self) -> Seq<char> {
        "snake_case_file_names"@
    }

    open spec fn findings(&self, file_path: Seq<char>, content: Seq<char>) -> Option<
        Seq<DiagnosticView>,
    > {
        Some(file_name_findings(file_path, path_file_stem(file_path)))
    }

    fn name(&self) -> (r: &str) {
        "snake_case_file_names"
    }

    fn check(&self, file_path: &str, content: &str) -> (r: Result<Vec<Diagnostic>, AnalyzerError>) {
        let stem = file_stem(file_path);
        let out = match &stem {
            Some(s) => check_file_name(file_path, Some(s.as_str())),
            None => check_file_name(file_path, None),
        };
        Ok(out)
    }
}

/// A rule on the names of private fields. It reports nothing: which field
/// is meant to be private cannot be told from the text alone.
#[derive(Debug, Clone, Copy)]
pub struct PrivateFieldUnderscoreRule;

impl Rule for PrivateFieldUnderscoreRule {
    open spec fn rule_id(&self) -> Seq<char> {
        "private_field_underscore"@
    }

    open spec fn findings(&self, file_path: Seq<char>, content: Seq<char>) -> Option<
        Seq<DiagnosticView>,
    > {
        Some(Seq::empty())
    }

    fn name(&self) -> (r: &str) {
        "private_field_underscore"
    }

    fn check(&self, file_path: &str, content: &str) -> (r: Result<Vec<Diagnostic>, AnalyzerError>) {
        let out: Vec<Diagnostic> = Vec::new();
        assert(out.deep_view() =~= Seq::<DiagnosticView>::empty());
        Ok(out)
    }
}

/// Reports lines that are longer than a maximum, in bytes.
#[derive(Debug, Clone, Copy)]
pub struct LineLengthRule {
    max_length: usize,
}

/// The diagnostic for the line with the index `index`, which is `len`
/// bytes long where `max` are allowed.
pub open spec fn line_length_diagnostic(
    file: Seq<char>,
    index: int,
    max: usize,
    len: usize,
) -> DiagnosticView {
    DiagnosticView {
        rule_id: "line_length"@,
        message: "Line exceeds maximum length of "@ + decimal(max as nat) + " characters (actual: "@
            + decimal(len as nat) + ")"@,
        severity: Severity::Info,
        category: RuleCategory::Style,
        location: LocationView {
            file,
            line: (index + 1) as usize,
            column: (max + 1) as usize,
            end_line: Some((index + 1) as usize),
            end_column: Some(len),
        },
        suggestion: Some("Consider breaking this line into multiple lines"@),
    }
}

/// The diagnostics for the lines that are too long among the first `upto`
/// of `lines`.
pub open spec fn line_length_findings(
    file: Seq<char>,
    lines: Seq<Seq<char>>,
    max: usize,
    upto: int,
) -> Seq<DiagnosticView>
    decreases upto,
{
    if upto <= 0 {
        Seq::empty()
    } else {
        let before = line_length_findings(file, lines, max, upto - 1);
        let len = encode_utf8(lines[upto - 1]).len();
        if len > max {
            before.push(line_length_diagnostic(file, upto - 1, max, len as usize))
        } else {
            before
        }
    }
}

impl LineLengthRule {
    /// The longest line that the rule accepts, in bytes.
    pub closed spec fn max(&self) -> usize {
        self.max_length
    }

    /// The rule that accepts lines of up to `max_length` bytes.
    pub fn new(max_length: usize) -> (r: Self)
        ensures
            r.max() == max_length,
    {
        LineLengthRule { max_length }
    }
}

impl Rule for LineLengthRule {
    open spec fn rule_id(&self) -> Seq<char> {
        "line_length"@
    }

    open spec fn findings(&self, file_path: Seq<char>, content: Seq<char>) -> Option<
        Seq<DiagnosticView>,
    > {
        Some(
            line_length_findings(
                file_path,
                lines_of(content),
                self.max(),
                lines_of(content).len() as int,
            ),
        )
    }

    fn name(&self) -> (r: &str) {
        "line_length"
    }

    fn check(&self, file_path: &str, content: &str) -> (r: Result<Vec<Diagnostic>, AnalyzerError>) {
        let lines = split_lines(content);
        let n = lines.len();
        let mut out: Vec<Diagnostic> = Vec::new();
        let mut i: usize = 0;
        assert(out.deep_view() =~= Seq::<DiagnosticView>::empty());
        while i < n
            invariant
                n == lines@.len(),
                i <= n,
                lines.deep_view() == lines_of(content@),
                out.deep_view() == line_length_findings(
                    file_path@,
                    lines_of(content@),
                    self.max(),
                    i as int,
                ),
            decreases n - i,
        {
            let line = lines[i].as_str();
            assert(line@ == lines.deep_view()[i as int]);
            let len = line.as_bytes().len();
            if len > self.max_length {
                let mut message = "Line exceeds maximum length of ".to_owned();
                message.append(decimal_string(self.max_length).as_str());
                message.append(" characters (actual: ");
                message.append(decimal_string(len).as_str());
                message.append(")");
                let diagnostic = Diagnostic::new(
                    "line_length",
                    message.as_str(),
                    Severity::Info,
                    RuleCategory::Style,
                    Location {
                        file: file_path.to_owned(),
                        line: i + 1,
                        column: self.max_length + 1,
                        end_line: Some(i + 1),
                        end_column: Some(len),
                    },
                ).with_suggestion("Consider breaking this line into multiple lines");
                let ghost so_far = out.deep_view();
                out.push(diagnostic);
                assert(out.deep_view() =~= so_far.push(diagnostic@));
            }
            i += 1;
        }
        Ok(out)
    }
}

} // verus!
