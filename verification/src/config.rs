//! The configuration of the analyzer.

use crate::text::str_eq;
use vstd::prelude::*;

verus! {

/// Whether a set of rules runs, and which of its rules do not.
#[derive(Debug)]
pub struct RuleSetConfig {
    pub enabled: bool,
    pub disabled_rules: Vec<String>,
}

/// The analyzer's settings.
#[derive(Debug)]
pub struct AnalyzerConfig {
    pub enabled: bool,
    pub exclude_patterns: Vec<String>,
    pub style_rules: RuleSetConfig,
    pub runtime_rules: RuleSetConfig,
    pub max_line_length: usize,
    pub parallel: bool,
}

/// Whether a setting that is not given counts as switched on: it does.
pub fn default_enabled() -> (r: bool)
    ensures
        r,
{
    true
}

/// The longest line that is accepted where no length is given.
pub fn default_max_line_length() -> (r: usize)
    ensures
        r == 120,
{
    120
}

/// Whether files are analyzed in parallel where nothing is said: they are.
pub fn default_parallel() -> (r: bool)
    ensures
        r,
{
    true
}

/// The patterns of the directories that are left out by default.
pub open spec fn default_exclude_patterns() -> Seq<Seq<char>> {
    seq![".dart_tool/**"@, "build/**"@, ".pub/**"@, "packages/**"@]
}

impl Default for RuleSetConfig {
    /// A set of rules that runs with all its rules.
    fn default() -> (r: Self)
        ensures
            r.enabled,
            r.disabled_rules@.len() == 0,
    {
        RuleSetConfig { enabled: default_enabled(), disabled_rules: Vec::new() }
    }
}

impl Clone for RuleSetConfig {
    fn clone(&self) -> (r: Self)
        ensures
            r.enabled == self.enabled,
            r.disabled_rules.deep_view() == self.disabled_rules.deep_view(),
    {
        RuleSetConfig { enabled: self.enabled, disabled_rules: clone_strings(&self.disabled_rules) }
    }
}

impl Default for AnalyzerConfig {
    /// The settings of an analyzer that was not configured: everything is
    /// switched on, the usual directories are left out, and a line may have
    /// 120 bytes.
    fn default() -> (r: Self)
        ensures
            r.enabled,
            r.exclude_patterns.deep_view() == default_exclude_patterns(),
            r.style_rules.enabled && r.style_rules.disabled_rules@.len() == 0,
            r.runtime_rules.enabled && r.runtime_rules.disabled_rules@.len() == 0,
            r.max_line_length == 120,
            r.parallel,
    {
        let mut exclude_patterns: Vec<String> = Vec::new();
        exclude_patterns.push(".dart_tool/**".to_owned());
        exclude_patterns.push("build/**".to_owned());
        exclude_patterns.push(".pub/**".to_owned());
        exclude_patterns.push("packages/**".to_owned());
        assert(exclude_patterns.deep_view() =~= default_exclude_patterns());
        AnalyzerConfig {
            enabled: default_enabled(),
            exclude_patterns,
            style_rules: RuleSetConfig::default(),
            runtime_rules: RuleSetConfig::default(),
            max_line_length: default_max_line_length(),
            parallel: default_parallel(),
        }
    }
}

impl Clone for AnalyzerConfig {
    fn clone(&self) -> (r: Self)
        ensures
            r.enabled == self.enabled,
            r.exclude_patterns.deep_view() == self.exclude_patterns.deep_view(),
            r.style_rules.enabled == self.style_rules.enabled,
            r.style_rules.disabled_rules.deep_view() == self.style_rules.disabled_rules.deep_view(),
            r.runtime_rules.enabled == self.runtime_rules.enabled,
            r.runtime_rules.disabled_rules.deep_view()
                == self.runtime_rules.disabled_rules.deep_view(),
            r.max_line_length == self.max_line_length,
            r.parallel == self.parallel,
    {
        AnalyzerConfig {
            enabled: self.enabled,
            exclude_patterns: clone_strings(&self.exclude_patterns),
            style_rules: self.style_rules.clone(),
            runtime_rules: self.runtime_rules.clone(),
            max_line_length: self.max_line_length,
            parallel: self.parallel,
        }
    }
}

/// The strings of a list, copied.
pub fn clone_strings(list: &Vec<String>) -> (r: Vec<String>)
    ensures
        r.deep_view() == list.deep_view(),
{
    let mut r: Vec<String> = Vec::new();
    let mut i: usize = 0;
    while i < list.len()
        invariant
            i <= list@.len(),
            r@.len() == i,
            forall|j: int| 0 <= j < i ==> r@[j]@ == list@[j]@,
        decreases list@.len() - i,
    {
        r.push(list[i].clone());
        i += 1;
    }
    assert(r.deep_view() =~= list.deep_view());
    r
}

/// Whether `name` is one of `names`.
pub fn contains_name(names: &Vec<String>, name: &str) -> (r: bool)
    ensures
        r == names.deep_view().contains(name@),
{
    let mut i: usize = 0;
    while i < names.len()
        invariant
            i <= names@.len(),
            forall|j: int| 0 <= j < i ==> names.deep_view()[j] != name@,
        decreases names@.len() - i,
    {
        assert(names.deep_view()[i as int] == names@[i as int]@);
        if str_eq(names[i].as_str(), name) {
            return true;
        }
        i += 1;
    }
    false
}

impl AnalyzerConfig {
    /// The set of rules that a rule belongs to.
    pub open spec fn rule_set(&self, is_style: bool) -> RuleSetConfig {
        if is_style {
            self.style_rules
        } else {
            self.runtime_rules
        }
    }

    /// Whether the rule `rule_name` runs: its set is switched on and does
    /// not list the rule among those that are switched off.
    pub fn is_rule_enabled(&self, rule_name: &str, is_style: bool) -> (r: bool)
        ensures
            r == (self.rule_set(is_style).enabled && !self.rule_set(
                is_style,
            ).disabled_rules.deep_view().contains(rule_name@)),
    {
        let rule_set = if is_style {
            &self.style_rules
        } else {
            &self.runtime_rules
        };
        rule_set.enabled && !contains_name(&rule_set.disabled_rules, rule_name)
    }
}

} // verus!
