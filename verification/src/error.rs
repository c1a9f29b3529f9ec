//! Diagnostics and the errors of the analyzer.

use vstd::prelude::*;

verus! {

/// What can go wrong in the analyzer. Each variant carries the text that
/// describes the failure.
#[derive(Debug)]
pub enum AnalyzerError {
    Io(String),
    Parse(String),
    Config(String),
    McpServer(String),
}

impl AnalyzerError {
    /// The text that the error carries.
    pub open spec fn detail(self) -> Seq<char> {
        match self {
            AnalyzerError::Io(s) => s@,
            AnalyzerError::Parse(s) => s@,
            AnalyzerError::Config(s) => s@,
            AnalyzerError::McpServer(s) => s@,
        }
    }

    /// The words that introduce the error's text when it is shown.
    pub open spec fn label(self) -> Seq<char> {
        match self {
            AnalyzerError::Io(_) => "IO error: "@,
            AnalyzerError::Parse(_) => "Parse error: "@,
            AnalyzerError::Config(_) => "Configuration error: "@,
            AnalyzerError::McpServer(_) => "MCP server error: "@,
        }
    }

    /// The error as shown to a user: its label, then its text.
    pub fn to_string(&self) -> (r: String)
        ensures
            r@ == self.label() + self.detail(),
    {
        let (label, detail) = match self {
            AnalyzerError::Io(s) => ("IO error: ", s),
            AnalyzerError::Parse(s) => ("Parse error: ", s),
            AnalyzerError::Config(s) => ("Configuration error: ", s),
            AnalyzerError::McpServer(s) => ("MCP server error: ", s),
        };
        let mut r = label.to_owned();
        r.append(detail.as_str());
        r
    }
}

/// The result of an operation of the analyzer.
pub type Result<T> = std::result::Result<T, AnalyzerError>;

/// How serious a diagnostic is.
#[derive(Debug, Clone, Copy, PartialEq, Eq, Structural)]
pub enum Severity {
    Error,
    Warning,
    Info,
}

impl Severity {
    /// The lower-case name of the severity.
    pub open spec fn name(self) -> Seq<char> {
        match self {
            Severity::Error => "error"@,
            Severity::Warning => "warning"@,
            Severity::Info => "info"@,
        }
    }

    /// The lower-case name of the severity.
    pub fn to_string(&self) -> (r: String)
        ensures
            r@ == self.name(),
    {
        match self {
            Severity::Error => "error".to_owned(),
            Severity::Warning => "warning".to_owned(),
            Severity::Info => "info".to_owned(),
        }
    }
}

/// The family of rules a diagnostic comes from.
#[derive(Debug, Clone, Copy, PartialEq, Eq, Structural)]
pub enum RuleCategory {
    Style,
    Runtime,
}

impl RuleCategory {
    /// The lower-case name of the category.
    pub open spec fn name(self) -> Seq<char> {
        match self {
            RuleCategory::Style => "style"@,
            RuleCategory::Runtime => "runtime"@,
        }
    }

    /// The lower-case name of the category.
    pub fn to_string(&self) -> (r: String)
        ensures
            r@ == self.name(),
    {
        match self {
            RuleCategory::Style => "style".to_owned(),
            RuleCategory::Runtime => "runtime".to_owned(),
        }
    }
}

/// A place in a source file. Lines and columns count from one.
#[derive(Debug)]
pub struct Location {
    pub file: String,
    pub line: usize,
    pub column: usize,
    pub end_line: Option<usize>,
    pub end_column: Option<usize>,
}

/// What a `Location` holds.
pub ghost struct LocationView {
    pub file: Seq<char>,
    pub line: usize,
    pub column: usize,
    pub end_line: Option<usize>,
    pub end_column: Option<usize>,
}

impl View for Location {
    type V = LocationView;

    open spec fn view(&self) -> LocationView {
        LocationView {
            file: self.file@,
            line: self.line,
            column: self.column,
            end_line: self.end_line,
            end_column: self.end_column,
        }
    }
}

impl DeepView for Location {
    type V = LocationView;

    open spec fn deep_view(&self) -> LocationView {
        self@
    }
}

impl Clone for Location {
    fn clone(&self) -> (r: Self)
        ensures
            r@ == self@,
    {
        Location {
            file: self.file.clone(),
            line: self.line,
            column: self.column,
            end_line: self.end_line,
            end_column: self.end_column,
        }
    }
}

/// One finding of a rule.
#[derive(Debug)]
pub struct Diagnostic {
    pub rule_id: String,
    pub message: String,
    pub severity: Severity,
    pub category: RuleCategory,
    pub location: Location,
    pub suggestion: Option<String>,
}

/// What a `Diagnostic` holds.
pub ghost struct DiagnosticView {
    pub rule_id: Seq<char>,
    pub message: Seq<char>,
    pub severity: Severity,
    pub category: RuleCategory,
    pub location: LocationView,
    pub suggestion: Option<Seq<char>>,
}

impl View for Diagnostic {
    type V = DiagnosticView;

    open spec fn view(&self) -> DiagnosticView {
        DiagnosticView {
            rule_id: self.rule_id@,
            message: self.message@,
            severity: self.severity,
            category: self.category,
            location: self.location@,
            suggestion: match self.suggestion {
                Some(s) => Some(s@),
                None => None,
            },
        }
    }
}

impl DeepView for Diagnostic {
    type V = DiagnosticView;

    open spec fn deep_view(&self) -> DiagnosticView {
        self@
    }
}

impl Clone for Diagnostic {
    fn clone(&self) -> (r: Self)
        ensures
            r@ == self@,
    {
        Diagnostic {
            rule_id: self.rule_id.clone(),
            message: self.message.clone(),
            severity: self.severity,
            category: self.category,
            location: self.location.clone(),
            suggestion: match &self.suggestion {
                Some(s) => Some(s.clone()),
                None => None,
            },
        }
    }
}

impl Diagnostic {
    /// A diagnostic without a suggestion.
    pub fn new(
        rule_id: &str,
        message: &str,
        severity: Severity,
        category: RuleCategory,
        location: Location,
    ) -> (r: Self)
        ensures
            r@ == (DiagnosticView {
                rule_id: rule_id@,
                message: message@,
                severity,
                category,
                location: location@,
                suggestion: None,
            }),
    {
        Diagnostic {
            rule_id: rule_id.to_owned(),
            message: message.to_owned(),
            severity,
            category,
            location,
            suggestion: None,
        }
    }

    /// The same diagnostic with `suggestion` as its suggestion.
    pub fn with_suggestion(self, suggestion: &str) -> (r: Self)
        ensures
            r@ == (DiagnosticView { suggestion: Some(suggestion@), ..self@ }),
    {
        let mut d = self;
        d.suggestion = Some(suggestion.to_owned());
        d
    }
}

/// The diagnostics of a list, copied.
pub fn clone_diagnostics(list: &Vec<Diagnostic>) -> (r: Vec<Diagnostic>)
    ensures
        r.deep_view() == list.deep_view(),
{
    let mut r: Vec<Diagnostic> = Vec::new();
    let mut i: usize = 0;
    while i < list.len()
        invariant
            i <= list@.len(),
            r@.len() == i,
            forall|j: int| 0 <= j < i ==> r@[j]@ == list@[j]@,
        decreases list@.len() - i,
    {
        r.push(list[i].clone());
        i += 1;
    }
    assert(r.deep_view() =~= list.deep_view());
    r
}

} // verus!
