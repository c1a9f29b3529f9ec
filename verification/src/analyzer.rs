//! What a rule is.

use crate::error::{AnalyzerError, Diagnostic, DiagnosticView};
use vstd::prelude::*;
use vstd::utf8::encode_utf8;

verus! {

/// A rule that checks the text of one file.
pub trait Rule: Send + Sync {
    /// The name by which the rule's diagnostics are known.
    spec fn rule_id(&self) -> Seq<char>;

    /// What the rule finds in the file `file_path` with the text `content`,
    /// or `None` where the check fails.
    spec fn findings(&self, file_path: Seq<char>, content: Seq<char>) -> Option<
        Seq<DiagnosticView>,
    >;

    /// The rule's name.
    fn name(&self) -> (r: &str)
        ensures
            r@ == self.rule_id(),
    ;

    /// Checks one file. The text has to be shorter than the largest
    /// machine word, so that every position in it can be counted from one.
    fn check(&self, file_path: &str, content: &str) -> (r: Result<Vec<Diagnostic>, AnalyzerError>)
        requires
            encode_utf8(content@).len() < usize::MAX,
        ensures
            match r {
                Ok(list) => self.findings(file_path@, content@) == Some(list.deep_view()),
                Err(_) => self.findings(file_path@, content@) is None,
            },
    ;
}

} // verus!
