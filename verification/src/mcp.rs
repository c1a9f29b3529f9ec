//! The query server's store of diagnostics and its answers.

use crate::error::{clone_diagnostics, Diagnostic, DiagnosticView, RuleCategory, Severity};
use crate::text::{chars_of, contains, contains_chars, decimal, decimal_string, str_eq};
use vstd::hash_map::StringHashMap;
use vstd::prelude::*;

verus! {

/// Which diagnostics a query asks for. A filter that is not given lets
/// every diagnostic pass.
#[derive(Debug)]
pub struct ErrorsQuery {
    /// The name of the category.
    pub category: Option<String>,
    /// The name of the severity.
    pub severity: Option<String>,
    /// A part of the file's path.
    pub file: Option<String>,
}

/// What an `ErrorsQuery` holds.
pub ghost struct ErrorsQueryView {
    pub category: Option<Seq<char>>,
    pub severity: Option<Seq<char>>,
    pub file: Option<Seq<char>>,
}

impl View for ErrorsQuery {
    type V = ErrorsQueryView;

    open spec fn view(&self) -> ErrorsQueryView {
        ErrorsQueryView {
            category: self.category.deep_view(),
            severity: self.severity.deep_view(),
            file: self.file.deep_view(),
        }
    }
}

/// A request: the method, and the query that its parameters hold or the
/// reason why they hold none.
#[derive(Debug)]
pub struct McpRequest {
    pub method: String,
    pub params: Result<ErrorsQuery, String>,
}

/// How many diagnostics there are of each kind.
#[derive(Debug, Clone, Copy, PartialEq, Eq, Structural)]
pub struct DiagnosticsStats {
    pub total: usize,
    pub errors: usize,
    pub warnings: usize,
    pub info: usize,
    pub style_issues: usize,
    pub runtime_issues: usize,
    pub files_with_issues: usize,
}

/// The data of a response.
#[derive(Debug)]
pub enum McpData {
    Null,
    Diagnostics(Vec<Diagnostic>),
    Stats(DiagnosticsStats),
}

/// The answer to a request.
#[derive(Debug)]
pub struct McpResponse {
    pub success: bool,
    pub data: McpData,
    pub error: Option<String>,
}

/// Whether a diagnostic passes the filters of a query.
pub open spec fn passes(d: DiagnosticView, q: ErrorsQueryView) -> bool {
    &&& q.category matches Some(c) ==> d.category.name() == c
    &&& q.severity matches Some(s) ==> d.severity.name() == s
    &&& q.file matches Some(f) ==> contains(d.location.file, f)
}

/// Those of the first `upto` of `list` that pass the query, in order.
pub open spec fn filtered(list: Seq<DiagnosticView>, q: ErrorsQueryView, upto: int) -> Seq<
    DiagnosticView,
>
    decreases upto,
{
    if upto <= 0 {
        Seq::empty()
    } else if passes(list[upto - 1], q) {
        filtered(list, q, upto - 1).push(list[upto - 1])
    } else {
        filtered(list, q, upto - 1)
    }
}

/// The number of the first `upto` of `list` with the severity `s`.
pub open spec fn count_severity(list: Seq<DiagnosticView>, s: Severity, upto: int) -> nat
    decreases upto,
{
    if upto <= 0 {
        0
    } else {
        count_severity(list, s, upto - 1) + if list[upto - 1].severity == s {
            1nat
        } else {
            0nat
        }
    }
}

/// The number of the first `upto` of `list` with the category `c`.
pub open spec fn count_category(list: Seq<DiagnosticView>, c: RuleCategory, upto: int) -> nat
    decreases upto,
{
    if upto <= 0 {
        0
    } else {
        count_category(list, c, upto - 1) + if list[upto - 1].category == c {
            1nat
        } else {
            0nat
        }
    }
}

/// The files of the first `upto` of `list`.
pub open spec fn files_of(list: Seq<DiagnosticView>, upto: int) -> Set<Seq<char>>
    decreases upto,
{
    if upto <= 0 {
        Set::empty()
    } else {
        files_of(list, upto - 1).insert(list[upto - 1].location.file)
    }
}

/// The statistics of `list`.
pub open spec fn stats_of(list: Seq<DiagnosticView>) -> DiagnosticsStats {
    let n = list.len() as int;
    DiagnosticsStats {
        total: list.len() as usize,
        errors: count_severity(list, Severity::Error, n) as usize,
        warnings: count_severity(list, Severity::Warning, n) as usize,
        info: count_severity(list, Severity::Info, n) as usize,
        style_issues: count_category(list, RuleCategory::Style, n) as usize,
        runtime_issues: count_category(list, RuleCategory::Runtime, n) as usize,
        files_with_issues: files_of(list, n).len() as usize,
    }
}

/// A count is no larger than the number of diagnostics counted.
pub proof fn lemma_counts_bounded(list: Seq<DiagnosticView>, upto: int)
    requires
        0 <= upto <= list.len(),
    ensures
        count_severity(list, Severity::Error, upto) <= upto,
        count_severity(list, Severity::Warning, upto) <= upto,
        count_severity(list, Severity::Info, upto) <= upto,
        count_category(list, RuleCategory::Style, upto) <= upto,
        count_category(list, RuleCategory::Runtime, upto) <= upto,
        count_severity(list, Severity::Error, upto) + count_severity(list, Severity::Warning, upto)
            + count_severity(list, Severity::Info, upto) == upto,
        count_category(list, RuleCategory::Style, upto) + count_category(
            list,
            RuleCategory::Runtime,
            upto,
        ) == upto,
        files_of(list, upto).finite(),
        files_of(list, upto).len() <= upto,
    decreases upto,
{
    if upto > 0 {
        lemma_counts_bounded(list, upto - 1);
    }
}

impl DiagnosticsStats {
    /// Counts the diagnostics of `diagnostics`: all of them, those of each
    /// severity and of each category, and the files they are in.
    pub fn from_diagnostics(diagnostics: &[Diagnostic]) -> (r: Self)
        ensures
            r == stats_of(diagnostics.deep_view()),
    {
        let ghost list = diagnostics.deep_view();
        let n = diagnostics.len();
        let mut errors: usize = 0;
        let mut warnings: usize = 0;
        let mut info: usize = 0;
        let mut style_issues: usize = 0;
        let mut runtime_issues: usize = 0;
        let mut files: StringHashMap<bool> = StringHashMap::new();
        let mut i: usize = 0;
        assert(files@.dom() =~= files_of(list, 0));
        while i < n
            invariant
                n == diagnostics@.len(),
                list == diagnostics.deep_view(),
                i <= n,
                errors == count_severity(list, Severity::Error, i as int),
                warnings == count_severity(list, Severity::Warning, i as int),
                info == count_severity(list, Severity::Info, i as int),
                style_issues == count_category(list, RuleCategory::Style, i as int),
                runtime_issues == count_category(list, RuleCategory::Runtime, i as int),
                files@.dom() == files_of(list, i as int),
            decreases n - i,
        {
            let d = &diagnostics[i];
            proof {
                lemma_counts_bounded(list, i as int);
                assert(list[i as int] == d@);
            }
            match d.severity {
                Severity::Error => {
                    errors += 1;
                },
                Severity::Warning => {
                    warnings += 1;
                },
                Severity::Info => {
                    info += 1;
                },
            }
            match d.category {
                RuleCategory::Style => {
                    style_issues += 1;
                },
                RuleCategory::Runtime => {
                    runtime_issues += 1;
                },
            }
            let ghost before = files@.dom();
            files.insert(d.location.file.clone(), true);
            assert(files@.dom() =~= before.insert(d.location.file@));
            i += 1;
        }
        proof {
            lemma_counts_bounded(list, n as int);
        }
        DiagnosticsStats {
            total: n,
            errors,
            warnings,
            info,
            style_issues,
            runtime_issues,
            files_with_issues: files.len(),
        }
    }
}

/// Whether a diagnostic passes the filters of a query.
pub fn passes_query(d: &Diagnostic, query: &ErrorsQuery) -> (r: bool)
    ensures
        r == passes(d@, query@),
{
    match &query.category {
        Some(c) => {
            if !str_eq(d.category.to_string().as_str(), c.as_str()) {
                return false;
            }
        },
        None => {},
    }
    match &query.severity {
        Some(s) => {
            if !str_eq(d.severity.to_string().as_str(), s.as_str()) {
                return false;
            }
        },
        None => {},
    }
    match &query.file {
        Some(f) => {
            let path = chars_of(d.location.file.as_str());
            let part = chars_of(f.as_str());
            if !contains_chars(path.as_slice(), part.as_slice()) {
                return false;
            }
        },
        None => {},
    }
    true
}

/// The diagnostics that the query server answers with.
pub struct McpServer {
    pub diagnostics: Vec<Diagnostic>,
}

/// What the server answers to a request with the given method and query
/// while it holds `stored`.
pub open spec fn answers(
    stored: Seq<DiagnosticView>,
    method: Seq<char>,
    params: Result<ErrorsQueryView, Seq<char>>,
    response: McpResponse,
) -> bool {
    if method == "get_all_errors"@ {
        &&& response.success
        &&& response.error is None
        &&& response.data matches McpData::Diagnostics(list) && list.deep_view() == stored
    } else if method == "get_errors"@ {
        match params {
            Ok(q) => {
                &&& response.success
                &&& response.error is None
                &&& response.data matches McpData::Diagnostics(list) && list.deep_view()
                    == filtered(stored, q, stored.len() as int)
            },
            Err(reason) => {
                &&& !response.success
                &&& response.data is Null
                &&& response.error matches Some(e) && e@ == "Invalid query parameters: "@ + reason
            },
        }
    } else if method == "get_stats"@ {
        &&& response.success
        &&& response.error is None
        &&& response.data matches McpData::Stats(s) && s == stats_of(stored)
    } else {
        &&& !response.success
        &&& response.data is Null
        &&& response.error matches Some(e) && e@ == "Unknown method: "@ + method
    }
}

/// What the parameters of a request hold.
pub open spec fn params_view(params: Result<ErrorsQuery, String>) -> Result<
    ErrorsQueryView,
    Seq<char>,
> {
    match params {
        Ok(q) => Ok(q@),
        Err(e) => Err(e@),
    }
}

impl McpServer {
    /// A server without diagnostics.
    pub fn new() -> (r: Self)
        ensures
            r.diagnostics@.len() == 0,
    {
        McpServer { diagnostics: Vec::new() }
    }

    /// Puts `diagnostics` in the place of those that the server held.
    pub fn update_diagnostics(&mut self, diagnostics: Vec<Diagnostic>)
        ensures
            final(self).diagnostics == diagnostics,
    {
        self.diagnostics = diagnostics;
    }

    /// All diagnostics of the server.
    pub fn get_all_diagnostics(&self) -> (r: Vec<Diagnostic>)
        ensures
            r.deep_view() == self.diagnostics.deep_view(),
    {
        clone_diagnostics(&self.diagnostics)
    }

    /// The diagnostics that pass the filters of `query`, in order.
    pub fn get_filtered_diagnostics(&self, query: &ErrorsQuery) -> (r: Vec<Diagnostic>)
        ensures
            r.deep_view() == filtered(
                self.diagnostics.deep_view(),
                query@,
                self.diagnostics@.len() as int,
            ),
    {
        let mut r: Vec<Diagnostic> = Vec::new();
        let mut i: usize = 0;
        assert(r.deep_view() =~= Seq::<DiagnosticView>::empty());
        while i < self.diagnostics.len()
            invariant
                i <= self.diagnostics@.len(),
                r.deep_view() == filtered(self.diagnostics.deep_view(), query@, i as int),
            decreases self.diagnostics@.len() - i,
        {
            let d = &self.diagnostics[i];
            assert(self.diagnostics.deep_view()[i as int] == d@);
            if passes_query(d, query) {
                let ghost so_far = r.deep_view();
                r.push(d.clone());
                assert(r.deep_view() =~= so_far.push(d@));
            }
            i += 1;
        }
        r
    }

    /// Answers a request: all diagnostics, those that pass a query, or the
    /// statistics; a failure for parameters that hold no query and for a
    /// method that is not known.
    pub fn handle_request(&self, request: McpRequest) -> (response: McpResponse)
        ensures
            answers(
                self.diagnostics.deep_view(),
                request.method@,
                params_view(request.params),
                response,
            ),
    {
        proof {
            reveal_strlit("get_all_errors");
            reveal_strlit("get_errors");
            reveal_strlit("get_stats");
            assert("get_all_errors"@.len() == 14 && "get_errors"@.len() == 10 && "get_stats"@.len()
                == 9);
        }
        let method = request.method.as_str();
        if str_eq(method, "get_all_errors") {
            McpResponse {
                success: true,
                data: McpData::Diagnostics(self.get_all_diagnostics()),
                error: None,
            }
        } else if str_eq(method, "get_errors") {
            match &request.params {
                Ok(query) => McpResponse {
                    success: true,
                    data: McpData::Diagnostics(self.get_filtered_diagnostics(query)),
                    error: None,
                },
                Err(reason) => {
                    let mut e = "Invalid query parameters: ".to_owned();
                    e.append(reason.as_str());
                    McpResponse { success: false, data: McpData::Null, error: Some(e) }
                },
            }
        } else if str_eq(method, "get_stats") {
            McpResponse {
                success: true,
                data: McpData::Stats(
                    DiagnosticsStats::from_diagnostics(self.diagnostics.as_slice()),
                ),
                error: None,
            }
        } else {
            let mut e = "Unknown method: ".to_owned();
            e.append(method);
            McpResponse { success: false, data: McpData::Null, error: Some(e) }
        }
    }
}

/// The address on which the server listens: the given port of this host.
pub fn listen_address(port: u16) -> (r: String)
    ensures
        r@ == "127.0.0.1:"@ + decimal(port as nat),
{
    let mut r = "127.0.0.1:".to_owned();
    r.append(decimal_string(port as usize).as_str());
    r
}

} // verus!
