//! What a semantic analysis of Dart sources tells: types, symbols and
//! diagnostics, and an analyzer that answers from what it was given.

use crate::error::AnalyzerError;
use vstd::hash_map::StringHashMap;
use vstd::prelude::*;

verus! {

/// The kind of a symbol.
#[derive(Debug, Clone, Copy, PartialEq, Eq, Structural)]
pub enum SymbolKind {
    Class,
    Function,
    Method,
    Field,
    Variable,
    Parameter,
    TypeParameter,
    Enum,
    Mixin,
    Extension,
}

/// What is known of a symbol.
#[derive(Debug, Clone)]
pub struct SymbolInfo {
    pub name: String,
    pub kind: SymbolKind,
    pub resolved_type: Option<String>,
    pub is_nullable: bool,
    pub definition_file: String,
    pub definition_line: usize,
    pub definition_column: usize,
}

/// How serious a semantic diagnostic is.
#[derive(Debug, Clone, Copy, PartialEq, Eq, Structural)]
pub enum DiagnosticSeverity {
    Error,
    Warning,
    Info,
    Hint,
}

/// A diagnostic of the semantic analysis.
#[derive(Debug)]
pub struct SemanticDiagnostic {
    pub message: String,
    pub severity: DiagnosticSeverity,
    pub file: String,
    pub start_line: usize,
    pub start_column: usize,
    pub end_line: usize,
    pub end_column: usize,
    pub code: Option<String>,
    pub fixes: Vec<String>,
}

/// What a `SemanticDiagnostic` holds.
pub ghost struct SemanticDiagnosticView {
    pub message: Seq<char>,
    pub severity: DiagnosticSeverity,
    pub file: Seq<char>,
    pub start_line: usize,
    pub start_column: usize,
    pub end_line: usize,
    pub end_column: usize,
    pub code: Option<Seq<char>>,
    pub fixes: Seq<Seq<char>>,
}

impl View for SemanticDiagnostic {
    type V = SemanticDiagnosticView;

    open spec fn view(&self) -> SemanticDiagnosticView {
        SemanticDiagnosticView {
            message: self.message@,
            severity: self.severity,
            file: self.file@,
            start_line: self.start_line,
            start_column: self.start_column,
            end_line: self.end_line,
            end_column: self.end_column,
            code: self.code.deep_view(),
            fixes: self.fixes.deep_view(),
        }
    }
}

impl DeepView for SemanticDiagnostic {
    type V = SemanticDiagnosticView;

    open spec fn deep_view(&self) -> SemanticDiagnosticView {
        self@
    }
}

impl Clone for SemanticDiagnostic {
    fn clone(&self) -> (r: Self)
        ensures
            r@ == self@,
    {
        SemanticDiagnostic {
            message: self.message.clone(),
            severity: self.severity,
            file: self.file.clone(),
            start_line: self.start_line,
            start_column: self.start_column,
            end_line: self.end_line,
            end_column: self.end_column,
            code: match &self.code {
                Some(c) => Some(c.clone()),
                None => None,
            },
            fixes: crate::config::clone_strings(&self.fixes),
        }
    }
}

/// A type, as the analysis resolved it.
#[derive(Debug)]
pub struct TypeInfo {
    pub name: String,
    pub is_nullable: bool,
    pub type_arguments: Vec<TypeInfo>,
    pub is_function: bool,
    pub return_type: Option<Box<TypeInfo>>,
    pub parameter_types: Vec<TypeInfo>,
}

/// What a semantic analysis answers. Positions are a line and a column in
/// a file.
pub trait SemanticAnalyzer {
    /// The type of what stands at a position.
    fn resolve_type(&self, file: &str, line: usize, column: usize) -> Result<
        Option<TypeInfo>,
        AnalyzerError,
    >;

    /// The diagnostics of a file.
    fn get_diagnostics(&self, file: &str) -> Result<Vec<SemanticDiagnostic>, AnalyzerError>;

    /// Where the symbol at a position is defined.
    fn find_definition(&self, file: &str, line: usize, column: usize) -> Result<
        Option<SymbolInfo>,
        AnalyzerError,
    >;

    /// Where the symbol at a position is used.
    fn find_references(&self, file: &str, line: usize, column: usize) -> Result<
        Vec<SymbolInfo>,
        AnalyzerError,
    >;

    /// What to show for the symbol at a position.
    fn get_hover(&self, file: &str, line: usize, column: usize) -> Result<
        Option<String>,
        AnalyzerError,
    >;
}

/// An analyzer that answers from the diagnostics and symbols it was given.
pub struct MockSemanticAnalyzer {
    pub diagnostics: StringHashMap<Vec<SemanticDiagnostic>>,
    pub symbols: StringHashMap<SymbolInfo>,
}

/// The diagnostics recorded for `file`; none where the file is not known.
pub open spec fn recorded(m: Map<Seq<char>, Vec<SemanticDiagnostic>>, file: Seq<char>) -> Seq<
    SemanticDiagnosticView,
> {
    if m.contains_key(file) {
        m[file].deep_view()
    } else {
        Seq::empty()
    }
}

/// The diagnostics of a list, copied.
pub fn clone_semantic_diagnostics(list: &Vec<SemanticDiagnostic>) -> (r: Vec<SemanticDiagnostic>)
    ensures
        r.deep_view() == list.deep_view(),
{
    let mut r: Vec<SemanticDiagnostic> = Vec::new();
    let mut i: usize = 0;
    while i < list.len()
        invariant
            i <= list@.len(),
            r@.len() == i,
            forall|j: int| 0 <= j < i ==> r@[j]@ == list@[j]@,
        decreases list@.len() - i,
    {
        r.push(list[i].clone());
        i += 1;
    }
    assert(r.deep_view() =~= list.deep_view());
    r
}

impl MockSemanticAnalyzer {
    /// An analyzer that knows nothing yet.
    pub fn new() -> (r: Self)
        ensures
            r.diagnostics@ == Map::<Seq<char>, Vec<SemanticDiagnostic>>::empty(),
            r.symbols@ == Map::<Seq<char>, SymbolInfo>::empty(),
    {
        MockSemanticAnalyzer { diagnostics: StringHashMap::new(), symbols: StringHashMap::new() }
    }

    /// Records `diagnostic` after those already recorded for `file`.
    pub fn add_diagnostic(&mut self, file: String, diagnostic: SemanticDiagnostic)
        ensures
            final(self).symbols@ == old(self).symbols@,
            final(self).diagnostics@.dom() == old(self).diagnostics@.dom().insert(file@),
            recorded(final(self).diagnostics@, file@) == recorded(old(self).diagnostics@, file@).push(
                diagnostic@,
            ),
            forall|other: Seq<char>|
                other != file@ && old(self).diagnostics@.contains_key(other)
                    ==> #[trigger] final(self).diagnostics@[other] == old(self).diagnostics@[other],
    {
        let mut list = match self.diagnostics.get(file.as_str()) {
            Some(known) => clone_semantic_diagnostics(known),
            None => Vec::new(),
        };
        let ghost before = list.deep_view();
        assert(before =~= recorded(self.diagnostics@, file@));
        list.push(diagnostic);
        assert(list.deep_view() =~= before.push(diagnostic@));
        self.diagnostics.insert(file, list);
        assert(final(self).diagnostics@.dom() =~= old(self).diagnostics@.dom().insert(file@));
    }

    /// Records `info` as the symbol `name`, in the place of what was
    /// recorded under that name.
    pub fn add_symbol(&mut self, name: String, info: SymbolInfo)
        ensures
            final(self).symbols@ == old(self).symbols@.insert(name@, info),
            final(self).diagnostics@ == old(self).diagnostics@,
    {
        self.symbols.insert(name, info);
    }
}

impl SemanticAnalyzer for MockSemanticAnalyzer {
    /// Every position has the type `String`, which is not nullable.
    fn resolve_type(&self, file: &str, line: usize, column: usize) -> (r: Result<
        Option<TypeInfo>,
        AnalyzerError,
    >)
        ensures
            r matches Ok(Some(t)) && t.name@ == "String"@ && !t.is_nullable && !t.is_function
                && t.type_arguments@.len() == 0 && t.return_type is None
                && t.parameter_types@.len() == 0,
    {
        Ok(
            Some(
                TypeInfo {
                    name: "String".to_owned(),
                    is_nullable: false,
                    type_arguments: Vec::new(),
                    is_function: false,
                    return_type: None,
                    parameter_types: Vec::new(),
                },
            ),
        )
    }

    /// The diagnostics recorded for exactly this file, in the order in
    /// which they were recorded.
    fn get_diagnostics(&self, file: &str) -> (r: Result<Vec<SemanticDiagnostic>, AnalyzerError>)
        ensures
            r matches Ok(list) && list.deep_view() == recorded(self.diagnostics@, file@),
    {
        match self.diagnostics.get(file) {
            Some(known) => Ok(clone_semantic_diagnostics(known)),
            None => {
                let list: Vec<SemanticDiagnostic> = Vec::new();
                assert(list.deep_view() =~= Seq::<SemanticDiagnosticView>::empty());
                Ok(list)
            },
        }
    }

    /// No definition is known.
    fn find_definition(&self, file: &str, line: usize, column: usize) -> (r: Result<
        Option<SymbolInfo>,
        AnalyzerError,
    >)
        ensures
            r matches Ok(None),
    {
        Ok(None)
    }

    /// No reference is known.
    fn find_references(&self, file: &str, line: usize, column: usize) -> (r: Result<
        Vec<SymbolInfo>,
        AnalyzerError,
    >)
        ensures
            r matches Ok(list) && list@.len() == 0,
    {
        Ok(Vec::new())
    }

    /// Every position shows the type `String`.
    fn get_hover(&self, file: &str, line: usize, column: usize) -> (r: Result<
        Option<String>,
        AnalyzerError,
    >)
        ensures
            r matches Ok(Some(text)) && text@ == "Type: String"@,
    {
        Ok(Some("Type: String".to_owned()))
    }
}

} // verus!
