//! The analysis of a project from the command line: which rules run, what
//! they find in all files, and the report of the findings.

use crate::analyzer::Rule;
use crate::error::{Diagnostic, DiagnosticView, Severity};
use crate::lsp::scan::{check_file, checkable, file_findings};
use crate::mcp::{count_severity, lemma_counts_bounded};
use crate::parser::DartFile;
use crate::rules::{
    are_runtime_rules, are_style_rules, get_all_rules, get_runtime_rules, get_style_rules,
    BuiltinRule,
};
use crate::text::{decimal, decimal_string, str_eq};
use vstd::prelude::*;

verus! {

/// Which rules a run is asked for: the style rules alone, else the runtime
/// rules alone, else all rules.
pub fn select_rules(style_only: bool, runtime_only: bool) -> (rules: Vec<BuiltinRule>)
    ensures
        style_only ==> are_style_rules(rules@),
        !style_only && runtime_only ==> are_runtime_rules(rules@),
        !style_only && !runtime_only ==> rules@.len() == 9 && are_style_rules(
            rules@.subrange(0, 4),
        ) && are_runtime_rules(rules@.subrange(4, 9)),
{
    if style_only {
        get_style_rules()
    } else if runtime_only {
        get_runtime_rules()
    } else {
        get_all_rules()
    }
}

/// What `rules` find in the first `upto` of `files`: file after file, and
/// in a file rule after rule.
pub open spec fn project_findings<R: Rule>(rules: Seq<R>, files: Seq<DartFile>, upto: int) -> Seq<
    DiagnosticView,
>
    decreases upto,
{
    if upto <= 0 {
        Seq::empty()
    } else {
        project_findings(rules, files, upto - 1) + file_findings(
            rules,
            files[upto - 1].path@,
            files[upto - 1].content@,
            rules.len() as int,
        )
    }
}

/// Runs every rule on every file, one file after the other.
pub fn analyze_sequential<R: Rule>(files: &Vec<DartFile>, rules: &Vec<R>) -> (out: Vec<Diagnostic>)
    requires
        checkable(files@),
    ensures
        out.deep_view() == project_findings(rules@, files@, files@.len() as int),
{
    let mut out: Vec<Diagnostic> = Vec::new();
    let mut i: usize = 0;
    assert(out.deep_view() =~= Seq::<DiagnosticView>::empty());
    while i < files.len()
        invariant
            i <= files@.len(),
            checkable(files@),
            out.deep_view() == project_findings(rules@, files@, i as int),
        decreases files@.len() - i,
    {
        let mut list = check_file(rules, files[i].path.as_str(), files[i].content.as_str());
        let ghost so_far = out.deep_view();
        let ghost found = list.deep_view();
        out.append(&mut list);
        assert(out.deep_view() =~= so_far + found);
        i += 1;
    }
    out
}

/// Puts together what was found in each file, in the order of the files.
/// This is how the findings of files that were checked side by side with
/// `check_file` become the findings of the project.
pub fn collect_findings(per_file: Vec<Vec<Diagnostic>>) -> (out: Vec<Diagnostic>)
    ensures
        out.deep_view() == per_file.deep_view().flatten(),
{
    let mut per_file = per_file;
    let ghost whole = per_file.deep_view();
    let mut out: Vec<Diagnostic> = Vec::new();
    let mut i: usize = 0;
    assert(out.deep_view() =~= Seq::<DiagnosticView>::empty());
    proof {
        assert(whole.take(0) =~= Seq::<Seq<DiagnosticView>>::empty());
    }
    let n = per_file.len();
    while i < n
        invariant
            i <= n,
            n == per_file@.len(),
            whole.len() == n,
            forall|k: int| i <= k < n ==> per_file@[k].deep_view() == #[trigger] whole[k],
            out.deep_view() == whole.take(i as int).flatten(),
        decreases n - i,
    {
        let mut list: Vec<Diagnostic> = Vec::new();
        let ghost expected = whole[i as int];
        assert(per_file@[i as int].deep_view() == expected);
        std::mem::swap(&mut list, &mut per_file[i]);
        let ghost so_far = out.deep_view();
        let ghost found = list.deep_view();
        out.append(&mut list);
        proof {
            assert(out.deep_view() =~= so_far + found);
            assert(whole.take(i + 1) =~= whole.take(i as int).push(expected));
            whole.take(i as int).lemma_flatten_push(expected);
        }
        i += 1;
    }
    assert(whole.take(n as int) =~= whole);
    out
}

/// Whether one of the diagnostics is an error: then the run has failed.
pub open spec fn any_error(list: Seq<DiagnosticView>) -> bool {
    exists|i: int| 0 <= i < list.len() && (#[trigger] list[i]).severity == Severity::Error
}

/// Whether one of the diagnostics is an error.
pub fn has_errors(diagnostics: &Vec<Diagnostic>) -> (r: bool)
    ensures
        r == any_error(diagnostics.deep_view()),
{
    let mut i: usize = 0;
    while i < diagnostics.len()
        invariant
            i <= diagnostics@.len(),
            forall|j: int|
                0 <= j < i ==> (#[trigger] diagnostics.deep_view()[j]).severity != Severity::Error,
        decreases diagnostics@.len() - i,
    {
        assert(diagnostics.deep_view()[i as int] == diagnostics@[i as int]@);
        match diagnostics[i].severity {
            Severity::Error => {
                return true;
            },
            _ => {},
        }
        i += 1;
    }
    false
}

/// The sign that a report shows for a severity.
pub open spec fn severity_icon(s: Severity) -> Seq<char> {
    match s {
        Severity::Error => "\u{2717}"@,
        Severity::Warning => "\u{26a0}"@,
        Severity::Info => "\u{2139}"@,
    }
}

/// The lines of a report for one diagnostic: the diagnostic, and its
/// suggestion where it has one.
pub open spec fn diagnostic_lines(d: DiagnosticView) -> Seq<char> {
    "  "@ + severity_icon(d.severity) + " ["@ + decimal(d.location.line as nat) + ":"@ + decimal(
        d.location.column as nat,
    ) + "] "@ + d.category.name() + " ("@ + d.rule_id + "): "@ + d.message + "\n"@ + (match d.suggestion {
        Some(s) => "    \u{1f4a1} "@ + s + "\n"@,
        None => Seq::empty(),
    })
}

/// The files of the first `upto` diagnostics, each once, in the order in
/// which they first occur.
pub open spec fn files_in_order(list: Seq<DiagnosticView>, upto: int) -> Seq<Seq<char>>
    decreases upto,
{
    if upto <= 0 {
        Seq::empty()
    } else {
        let before = files_in_order(list, upto - 1);
        if before.contains(list[upto - 1].location.file) {
            before
        } else {
            before.push(list[upto - 1].location.file)
        }
    }
}

/// The lines of a report for those of the first `upto` diagnostics that are
/// in `file`.
pub open spec fn file_lines(list: Seq<DiagnosticView>, file: Seq<char>, upto: int) -> Seq<char>
    decreases upto,
{
    if upto <= 0 {
        Seq::empty()
    } else {
        file_lines(list, file, upto - 1) + if list[upto - 1].location.file == file {
            diagnostic_lines(list[upto - 1])
        } else {
            Seq::empty()
        }
    }
}

/// The part of a report for the first `upto` of `files`: for each file its
/// path, its diagnostics and an empty line.
pub open spec fn files_text(list: Seq<DiagnosticView>, files: Seq<Seq<char>>, upto: int) -> Seq<
    char,
>
    decreases upto,
{
    if upto <= 0 {
        Seq::empty()
    } else {
        files_text(list, files, upto - 1) + files[upto - 1] + ":\n"@ + file_lines(
            list,
            files[upto - 1],
            list.len() as int,
        ) + "\n"@
    }
}

/// The last lines of a report: how many diagnostics there are of each
/// severity.
pub open spec fn summary_text(list: Seq<DiagnosticView>) -> Seq<char> {
    let n = list.len() as int;
    "Summary:\n  "@ + decimal(count_severity(list, Severity::Error, n)) + " errors, "@ + decimal(
        count_severity(list, Severity::Warning, n),
    ) + " warnings, "@ + decimal(count_severity(list, Severity::Info, n)) + " info messages\n"@
}

/// The report of the diagnostics of a project: the diagnostics file by
/// file, the files in the order in which they first occur, and a
/// summary; one line where there is no diagnostic.
pub open spec fn report_text(list: Seq<DiagnosticView>) -> Seq<char> {
    if list.len() == 0 {
        "\n\u{2713} No issues found!\n"@
    } else {
        let files = files_in_order(list, list.len() as int);
        "\nIssues found:\n\n"@ + files_text(list, files, files.len() as int) + summary_text(list)
    }
}

/// The sign that a report shows for a severity.
pub fn icon_of(s: Severity) -> (r: &'static str)
    ensures
        r@ == severity_icon(s),
{
    match s {
        Severity::Error => "\u{2717}",
        Severity::Warning => "\u{26a0}",
        Severity::Info => "\u{2139}",
    }
}

/// Appends the lines of a report for one diagnostic.
pub fn push_diagnostic_lines(out: &mut String, d: &Diagnostic)
    ensures
        final(out)@ == old(out)@ + diagnostic_lines(d@),
{
    let mut line = "  ".to_owned();
    line.append(icon_of(d.severity));
    line.append(" [");
    line.append(decimal_string(d.location.line).as_str());
    line.append(":");
    line.append(decimal_string(d.location.column).as_str());
    line.append("] ");
    line.append(d.category.to_string().as_str());
    line.append(" (");
    line.append(d.rule_id.as_str());
    line.append("): ");
    line.append(d.message.as_str());
    line.append("\n");
    match &d.suggestion {
        Some(s) => {
            let mut hint = "    \u{1f4a1} ".to_owned();
            hint.append(s.as_str());
            hint.append("\n");
            line.append(hint.as_str());
        },
        None => {
            assert(line@ + Seq::<char>::empty() =~= line@);
        },
    }
    out.append(line.as_str());
}

/// The files of the diagnostics, each once, in the order in which they
/// first occur.
pub fn distinct_files(diagnostics: &Vec<Diagnostic>) -> (files: Vec<String>)
    ensures
        files.deep_view() == files_in_order(diagnostics.deep_view(), diagnostics@.len() as int),
{
    let ghost list = diagnostics.deep_view();
    let mut files: Vec<String> = Vec::new();
    let mut i: usize = 0;
    assert(files.deep_view() =~= Seq::<Seq<char>>::empty());
    while i < diagnostics.len()
        invariant
            i <= diagnostics@.len(),
            list == diagnostics.deep_view(),
            files.deep_view() == files_in_order(list, i as int),
        decreases diagnostics@.len() - i,
    {
        let file = &diagnostics[i].location.file;
        assert(list[i as int].location.file == file@);
        if !crate::config::contains_name(&files, file.as_str()) {
            let ghost so_far = files.deep_view();
            files.push(file.clone());
            assert(files.deep_view() =~= so_far.push(file@));
        }
        i += 1;
    }
    files
}

/// Writes the report of the diagnostics of a project.
pub fn render_report(diagnostics: &Vec<Diagnostic>) -> (out: String)
    ensures
        out@ == report_text(diagnostics.deep_view()),
{
    let ghost list = diagnostics.deep_view();
    let n = diagnostics.len();
    if n == 0 {
        return "\n\u{2713} No issues found!\n".to_owned();
    }
    let files = distinct_files(diagnostics);
    let mut out = "\nIssues found:\n\n".to_owned();
    let ghost head = out@;
    let mut f: usize = 0;
    assert(out@ =~= head + files_text(list, files.deep_view(), 0));
    while f < files.len()
        invariant
            f <= files@.len(),
            n == diagnostics@.len(),
            list == diagnostics.deep_view(),
            out@ == head + files_text(list, files.deep_view(), f as int),
        decreases files@.len() - f,
    {
        let file = files[f].as_str();
        assert(files.deep_view()[f as int] == file@);
        let ghost before = out@;
        out.append(file);
        out.append(":\n");
        let ghost named = out@;
        let mut i: usize = 0;
        assert(out@ =~= named + file_lines(list, file@, 0));
        while i < n
            invariant
                i <= n,
                n == diagnostics@.len(),
                list == diagnostics.deep_view(),
                out@ == named + file_lines(list, file@, i as int),
            decreases n - i,
        {
            let d = &diagnostics[i];
            assert(list[i as int] == d@);
            let ghost so_far = out@;
            if str_eq(d.location.file.as_str(), file) {
                push_diagnostic_lines(&mut out, d);
                assert(out@ =~= named + file_lines(list, file@, i + 1));
            } else {
                assert(out@ + Seq::<char>::empty() =~= out@);
                assert(out@ =~= named + file_lines(list, file@, i + 1));
            }
            i += 1;
        }
        out.append("\n");
        assert(out@ =~= head + files_text(list, files.deep_view(), f + 1));
        f += 1;
    }
    let stats = crate::mcp::DiagnosticsStats::from_diagnostics(diagnostics.as_slice());
    proof {
        lemma_counts_bounded(list, n as int);
    }
    let mut summary = "Summary:\n  ".to_owned();
    summary.append(decimal_string(stats.errors).as_str());
    summary.append(" errors, ");
    summary.append(decimal_string(stats.warnings).as_str());
    summary.append(" warnings, ");
    summary.append(decimal_string(stats.info).as_str());
    summary.append(" info messages\n");
    assert(summary@ =~= summary_text(list));
    out.append(summary.as_str());
    out
}

} // verus!
