//! The rules of the analyzer.

pub mod lines;
pub mod runtime;
pub mod style;

use crate::analyzer::Rule;
use crate::error::{AnalyzerError, Diagnostic, DiagnosticView};
use crate::rules::runtime::{
    AvoidDynamicRule, AvoidEmptyCatchRule, AvoidNullCheckOnNullableRule, AvoidPrintRule,
    UnusedImportRule,
};
use crate::rules::style::{
    CamelCaseClassNameRule, LineLengthRule, PrivateFieldUnderscoreRule, SnakeCaseFileNameRule,
};
use vstd::prelude::*;

verus! {

/// One of the rules that the analyzer brings with it.
#[derive(Debug, Clone, Copy)]
pub enum BuiltinRule {
    CamelCaseClassName(CamelCaseClassNameRule),
    SnakeCaseFileName(SnakeCaseFileNameRule),
    PrivateFieldUnderscore(PrivateFieldUnderscoreRule),
    LineLength(LineLengthRule),
    AvoidDynamic(AvoidDynamicRule),
    AvoidEmptyCatch(AvoidEmptyCatchRule),
    UnusedImport(UnusedImportRule),
    AvoidPrint(AvoidPrintRule),
    AvoidNullCheckOnNullable(AvoidNullCheckOnNullableRule),
}

impl Rule for BuiltinRule {
    open spec fn rule_id(&self) -> Seq<char> {
        match self {
            BuiltinRule::CamelCaseClassName(r) => r.rule_id(),
            BuiltinRule::SnakeCaseFileName(r) => r.rule_id(),
            BuiltinRule::PrivateFieldUnderscore(r) => r.rule_id(),
            BuiltinRule::LineLength(r) => r.rule_id(),
            BuiltinRule::AvoidDynamic(r) => r.rule_id(),
            BuiltinRule::AvoidEmptyCatch(r) => r.rule_id(),
            BuiltinRule::UnusedImport(r) => r.rule_id(),
            BuiltinRule::AvoidPrint(r) => r.rule_id(),
            BuiltinRule::AvoidNullCheckOnNullable(r) => r.rule_id(),
        }
    }

    open spec fn findings(&self, file_path: Seq<char>, content: Seq<char>) -> Option<
        Seq<DiagnosticView>,
    > {
        match self {
            BuiltinRule::CamelCaseClassName(r) => r.findings(file_path, content),
            BuiltinRule::SnakeCaseFileName(r) => r.findings(file_path, content),
            BuiltinRule::PrivateFieldUnderscore(r) => r.findings(file_path, content),
            BuiltinRule::LineLength(r) => r.findings(file_path, content),
            BuiltinRule::AvoidDynamic(r) => r.findings(file_path, content),
            BuiltinRule::AvoidEmptyCatch(r) => r.findings(file_path, content),
            BuiltinRule::UnusedImport(r) => r.findings(file_path, content),
            BuiltinRule::AvoidPrint(r) => r.findings(file_path, content),
            BuiltinRule::AvoidNullCheckOnNullable(r) => r.findings(file_path, content),
        }
    }

    fn name(&self) -> (r: &str) {
        match self {
            BuiltinRule::CamelCaseClassName(r) => r.name(),
            BuiltinRule::SnakeCaseFileName(r) => r.name(),
            BuiltinRule::PrivateFieldUnderscore(r) => r.name(),
            BuiltinRule::LineLength(r) => r.name(),
            BuiltinRule::AvoidDynamic(r) => r.name(),
            BuiltinRule::AvoidEmptyCatch(r) => r.name(),
            BuiltinRule::UnusedImport(r) => r.name(),
            BuiltinRule::AvoidPrint(r) => r.name(),
            BuiltinRule::AvoidNullCheckOnNullable(r) => r.name(),
        }
    }

    fn check(&self, file_path: &str, content: &str) -> (r: Result<Vec<Diagnostic>, AnalyzerError>) {
        match self {
            BuiltinRule::CamelCaseClassName(r) => r.check(file_path, content),
            BuiltinRule::SnakeCaseFileName(r) => r.check(file_path, content),
            BuiltinRule::PrivateFieldUnderscore(r) => r.check(file_path, content),
            BuiltinRule::LineLength(r) => r.check(file_path, content),
            BuiltinRule::AvoidDynamic(r) => r.check(file_path, content),
            BuiltinRule::AvoidEmptyCatch(r) => r.check(file_path, content),
            BuiltinRule::UnusedImport(r) => r.check(file_path, content),
            BuiltinRule::AvoidPrint(r) => r.check(file_path, content),
            BuiltinRule::AvoidNullCheckOnNullable(r) => r.check(file_path, content),
        }
    }
}

/// Whether `rules` are the four style rules in their order, the lines being
/// limited to 120 bytes.
pub open spec fn are_style_rules(rules: Seq<BuiltinRule>) -> bool {
    &&& rules.len() == 4
    &&& rules[0] is CamelCaseClassName
    &&& rules[1] is SnakeCaseFileName
    &&& rules[2] is PrivateFieldUnderscore
    &&& rules[3] matches BuiltinRule::LineLength(r) && r.max() == 120
}

/// Whether `rules` are the five runtime rules in their order.
pub open spec fn are_runtime_rules(rules: Seq<BuiltinRule>) -> bool {
    &&& rules.len() == 5
    &&& rules[0] is AvoidDynamic
    &&& rules[1] is AvoidEmptyCatch
    &&& rules[2] is UnusedImport
    &&& rules[3] is AvoidPrint
    &&& rules[4] is AvoidNullCheckOnNullable
}

/// The style rules.
pub fn get_style_rules() -> (rules: Vec<BuiltinRule>)
    ensures
        are_style_rules(rules@),
{
    let mut rules: Vec<BuiltinRule> = Vec::new();
    rules.push(BuiltinRule::CamelCaseClassName(CamelCaseClassNameRule));
    rules.push(BuiltinRule::SnakeCaseFileName(SnakeCaseFileNameRule));
    rules.push(BuiltinRule::PrivateFieldUnderscore(PrivateFieldUnderscoreRule));
    rules.push(BuiltinRule::LineLength(LineLengthRule::new(120)));
    rules
}

/// The runtime rules.
pub fn get_runtime_rules() -> (rules: Vec<BuiltinRule>)
    ensures
        are_runtime_rules(rules@),
{
    let mut rules: Vec<BuiltinRule> = Vec::new();
    rules.push(BuiltinRule::AvoidDynamic(AvoidDynamicRule));
    rules.push(BuiltinRule::AvoidEmptyCatch(AvoidEmptyCatchRule));
    rules.push(BuiltinRule::UnusedImport(UnusedImportRule));
    rules.push(BuiltinRule::AvoidPrint(AvoidPrintRule));
    rules.push(BuiltinRule::AvoidNullCheckOnNullable(AvoidNullCheckOnNullableRule));
    rules
}

/// All rules: the style rules, then the runtime rules.
pub fn get_all_rules() -> (rules: Vec<BuiltinRule>)
    ensures
        rules@.len() == 9,
        are_style_rules(rules@.subrange(0, 4)),
        are_runtime_rules(rules@.subrange(4, 9)),
{
    let mut rules = get_style_rules();
    let mut runtime = get_runtime_rules();
    let ghost style = rules@;
    let ghost run = runtime@;
    rules.append(&mut runtime);
    assert(rules@.subrange(0, 4) =~= style);
    assert(rules@.subrange(4, 9) =~= run);
    rules
}

} // verus!
