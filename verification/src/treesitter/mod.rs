//! Edits and tokens of a parsed source.

pub mod extract;
pub mod print;
pub mod queries;
pub mod syntax;
pub mod types;

pub use crate::treesitter::extract::{
    extract_classes, extract_expressions, extract_fields, extract_imports, extract_methods,
    extract_tokens, DartClass, DartExpression, DartField, DartImport, DartMethod, DartVariable,
};
pub use crate::treesitter::types::{
    extract_type_annotations, extract_type_parameters, extract_variables, DartTypeAnnotation,
    DartTypeParameter,
};

use crate::error::AnalyzerError;
use crate::treesitter::syntax::{
    capture_views, dart_language, grammar_accepted, is_dart_grammar, match_views, node_end_byte,
    node_start_byte, parsed_syntax, parser_language, parser_new, parser_parse,
    parser_set_language, query_matches, run_query, syntax_tree, text_between, to_syntax_node,
    tree_edit, tree_root, tree_syntax, SyntaxNode, SyntaxTree,
};
use vstd::prelude::*;
use vstd::utf8::encode_utf8;

verus! {

/// An edit of a source text, as the incremental parser is told of it:
/// where it starts, and where the replaced text ended before and ends
/// after it, in bytes and as rows and columns.
#[derive(Debug, Clone, Copy)]
pub struct Edit {
    pub start_byte: usize,
    pub old_end_byte: usize,
    pub new_end_byte: usize,
    pub start_position: (usize, usize),
    pub old_end_position: (usize, usize),
    pub new_end_position: (usize, usize),
}

impl Edit {
    /// The edit that inserts `text_len` bytes at `position`, which is at
    /// `row` and `col`. The inserted text is taken to hold no line break.
    pub fn insert(position: usize, text_len: usize, row: usize, col: usize) -> (r: Self)
        requires
            position + text_len <= usize::MAX,
            col + text_len <= usize::MAX,
        ensures
            r.start_byte == position,
            r.old_end_byte == position,
            r.new_end_byte == position + text_len,
            r.start_position == (row, col),
            r.old_end_position == (row, col),
            r.new_end_position == (row, (col + text_len) as usize),
    {
        Edit {
            start_byte: position,
            old_end_byte: position,
            new_end_byte: position + text_len,
            start_position: (row, col),
            old_end_position: (row, col),
            new_end_position: (row, col + text_len),
        }
    }

    /// The edit that deletes the bytes from `start` to `end`.
    pub fn delete(
        start: usize,
        end: usize,
        start_row: usize,
        start_col: usize,
        end_row: usize,
        end_col: usize,
    ) -> (r: Self)
        ensures
            r.start_byte == start,
            r.old_end_byte == end,
            r.new_end_byte == start,
            r.start_position == (start_row, start_col),
            r.old_end_position == (end_row, end_col),
            r.new_end_position == (start_row, start_col),
    {
        Edit {
            start_byte: start,
            old_end_byte: end,
            new_end_byte: start,
            start_position: (start_row, start_col),
            old_end_position: (end_row, end_col),
            new_end_position: (start_row, start_col),
        }
    }

    /// The edit that puts `new_text_len` bytes in the place of the bytes
    /// from `start` to `old_end`. The new text ends in the row in which it
    /// starts, at the column `new_end_col`.
    pub fn replace(
        start: usize,
        old_end: usize,
        new_text_len: usize,
        start_row: usize,
        start_col: usize,
        old_end_row: usize,
        old_end_col: usize,
        new_end_col: usize,
    ) -> (r: Self)
        requires
            start + new_text_len <= usize::MAX,
        ensures
            r.start_byte == start,
            r.old_end_byte == old_end,
            r.new_end_byte == start + new_text_len,
            r.start_position == (start_row, start_col),
            r.old_end_position == (old_end_row, old_end_col),
            r.new_end_position == (start_row, new_end_col),
    {
        Edit {
            start_byte: start,
            old_end_byte: old_end,
            new_end_byte: start + new_text_len,
            start_position: (start_row, start_col),
            old_end_position: (old_end_row, old_end_col),
            new_end_position: (start_row, new_end_col),
        }
    }
}

/// A place in a source text, by row and column, both counted from zero.
#[derive(Debug, Clone, Copy, PartialEq, Eq, Structural)]
pub struct Point {
    pub row: usize,
    pub column: usize,
}

/// A token of a source text: a leaf of its syntax tree.
#[derive(Debug)]
pub struct Token {
    pub kind: String,
    pub text: String,
    pub start_byte: usize,
    pub end_byte: usize,
    pub start_point: Point,
    pub end_point: Point,
}

/// What a `Token` holds.
pub ghost struct TokenView {
    pub kind: Seq<char>,
    pub text: Seq<char>,
    pub start_byte: usize,
    pub end_byte: usize,
    pub start_point: Point,
    pub end_point: Point,
}

impl View for Token {
    type V = TokenView;

    open spec fn view(&self) -> TokenView {
        TokenView {
            kind: self.kind@,
            text: self.text@,
            start_byte: self.start_byte,
            end_byte: self.end_byte,
            start_point: self.start_point,
            end_point: self.end_point,
        }
    }
}

impl DeepView for Token {
    type V = TokenView;

    open spec fn deep_view(&self) -> TokenView {
        self@
    }
}

impl Clone for Token {
    fn clone(&self) -> (r: Self)
        ensures
            r@ == self@,
    {
        Token {
            kind: self.kind.clone(),
            text: self.text.clone(),
            start_byte: self.start_byte,
            end_byte: self.end_byte,
            start_point: self.start_point,
            end_point: self.end_point,
        }
    }
}

/// Whether the grammar of Dart is the language of `parser`.
pub open spec fn parses_dart(parser: tree_sitter::Parser) -> bool {
    parser_language(parser) matches Some(language) && is_dart_grammar(language)
}

/// Whether the grammar of Dart cannot be used with the parser of this
/// library.
pub open spec fn dart_grammar_refused() -> bool {
    exists|language: tree_sitter::Language|
        #[trigger] is_dart_grammar(language) && !grammar_accepted(language)
}

/// Whether `tree` is what a parser for Dart made of `source`, parsing it
/// from its start.
pub open spec fn is_dart_tree(tree: tree_sitter::Tree, source: Seq<char>) -> bool {
    exists|parser: tree_sitter::Parser|
        parses_dart(parser) && #[trigger] parsed_syntax(parser, source) == Some(tree_syntax(tree))
}

/// Whether a parser for Dart made no tree of `source`.
pub open spec fn dart_parse_fails(source: Seq<char>) -> bool {
    exists|parser: tree_sitter::Parser|
        parses_dart(parser) && #[trigger] parsed_syntax(parser, source) is None
}

/// Whether `e` is the parse error with the text `text`.
pub open spec fn is_parse_error(e: AnalyzerError, text: Seq<char>) -> bool {
    e matches AnalyzerError::Parse(t) && t@ == text
}

/// A parser for Dart: a new parser with the grammar of Dart as its
/// language. It fails where the grammar cannot be used with the parser.
pub fn create_dart_parser() -> (r: Result<tree_sitter::Parser, AnalyzerError>)
    ensures
        match r {
            Ok(parser) => parses_dart(parser),
            Err(e) => is_parse_error(e, "Failed to load Dart grammar for tree-sitter"@)
                && dart_grammar_refused(),
        },
{
    let mut parser = parser_new();
    let language = dart_language();
    match parser_set_language(&mut parser, &language) {
        Ok(_) => Ok(parser),
        Err(_) => Err(
            AnalyzerError::Parse("Failed to load Dart grammar for tree-sitter".to_owned()),
        ),
    }
}

/// Parses a Dart source into its syntax tree, with a new parser for Dart.
/// A source with syntax errors has a tree too, in which the errors are
/// marked. It fails where the grammar cannot be used, and where the parser
/// makes no tree.
pub fn parse_dart(source: &str) -> (r: Result<tree_sitter::Tree, AnalyzerError>)
    ensures
        match r {
            Ok(tree) => is_dart_tree(tree, source@),
            Err(e) => (is_parse_error(e, "Failed to load Dart grammar for tree-sitter"@)
                && dart_grammar_refused()) || (is_parse_error(
                e,
                "Failed to parse Dart source code"@,
            ) && dart_parse_fails(source@)),
        },
{
    let mut parser = match create_dart_parser() {
        Ok(parser) => parser,
        Err(e) => {
            return Err(e);
        },
    };
    let ghost fresh = parser;
    match parser_parse(&mut parser, source, None) {
        Some(tree) => {
            assert(parses_dart(fresh) && parsed_syntax(fresh, source@) == Some(tree_syntax(tree)));
            Ok(tree)
        },
        None => {
            assert(parses_dart(fresh) && parsed_syntax(fresh, source@) is None);
            Err(AnalyzerError::Parse("Failed to parse Dart source code".to_owned()))
        },
    }
}

/// The nodes of a tree, copied from its root down.
pub fn syntax_of(tree: &tree_sitter::Tree) -> (r: SyntaxNode)
    ensures
        r@ == tree_syntax(*tree),
{
    to_syntax_node(&tree_root(tree))
}

/// A node that a query captured, with the capture's name and the node's
/// text.
pub struct QueryCapture<'a> {
    pub name: String,
    pub node: tree_sitter::Node<'a>,
    pub text: String,
}

/// A match of a query: the pattern that matched, and what it captured.
pub struct QueryMatch<'a> {
    pub pattern_index: usize,
    pub captures: Vec<QueryCapture<'a>>,
}

/// The text that a capture shows for a node: the node's text in the
/// source, or `<error>` where it cannot be read.
pub open spec fn capture_text(tree: SyntaxTree, source: Seq<char>) -> Seq<char> {
    match text_between(source, tree.start_byte, tree.end_byte) {
        Some(text) => text,
        None => "<error>"@,
    }
}

/// Whether `capture` is the capture named `name` of `node`, with the
/// node's text in `source`.
pub open spec fn is_capture(
    capture: QueryCapture,
    name: Seq<char>,
    node: tree_sitter::Node,
    source: Seq<char>,
) -> bool {
    &&& capture.name@ == name
    &&& capture.node == node
    &&& capture.text@ == capture_text(syntax_tree(node), source)
}

/// Whether `found` are the matches `raw` with the texts of their
/// captures.
pub open spec fn are_matches(
    found: Seq<QueryMatch>,
    raw: Seq<(usize, Vec<(String, tree_sitter::Node)>)>,
    source: Seq<char>,
) -> bool {
    &&& found.len() == raw.len()
    &&& forall|i: int|
        0 <= i < raw.len() ==> {
            &&& (#[trigger] found[i]).pattern_index == raw[i].0
            &&& found[i].captures@.len() == raw[i].1@.len()
            &&& forall|j: int|
                0 <= j < raw[i].1@.len() ==> is_capture(
                    #[trigger] found[i].captures@[j],
                    raw[i].1@[j].0@,
                    raw[i].1@[j].1,
                    source,
                )
        }
}

/// The text that a capture shows for `node`.
pub fn text_of_capture(node: &tree_sitter::Node, source: &str) -> (r: String)
    ensures
        r@ == capture_text(syntax_tree(*node), source@),
{
    let bytes = source.as_bytes();
    let start = node_start_byte(node);
    let end = node_end_byte(node);
    if start <= end && end <= bytes.len() {
        match crate::text::str_from_utf8(vstd::slice::slice_subrange(bytes, start, end)) {
            Some(text) => text.to_owned(),
            None => "<error>".to_owned(),
        }
    } else {
        "<error>".to_owned()
    }
}

/// Gives each capture of the matches of a query the text of its node.
pub fn with_texts<'a>(
    raw: Vec<(usize, Vec<(String, tree_sitter::Node<'a>)>)>,
    source: &str,
) -> (found: Vec<QueryMatch<'a>>)
    ensures
        are_matches(found@, raw@, source@),
{
    let mut found: Vec<QueryMatch<'a>> = Vec::new();
    let mut i: usize = 0;
    while i < raw.len()
        invariant
            i <= raw@.len(),
            found@.len() == i,
            forall|k: int|
                0 <= k < i ==> {
                    &&& (#[trigger] found@[k]).pattern_index == raw@[k].0
                    &&& found@[k].captures@.len() == raw@[k].1@.len()
                    &&& forall|j: int|
                        0 <= j < raw@[k].1@.len() ==> is_capture(
                            #[trigger] found@[k].captures@[j],
                            raw@[k].1@[j].0@,
                            raw@[k].1@[j].1,
                            source@,
                        )
                },
        decreases raw@.len() - i,
    {
        let nodes = &raw[i].1;
        let mut captures: Vec<QueryCapture<'a>> = Vec::new();
        let mut j: usize = 0;
        while j < nodes.len()
            invariant
                j <= nodes@.len(),
                captures@.len() == j,
                forall|k: int|
                    0 <= k < j ==> is_capture(
                        #[trigger] captures@[k],
                        nodes@[k].0@,
                        nodes@[k].1,
                        source@,
                    ),
            decreases nodes@.len() - j,
        {
            let node = nodes[j].1;
            captures.push(
                QueryCapture {
                    name: nodes[j].0.clone(),
                    node,
                    text: text_of_capture(&node, source),
                },
            );
            j += 1;
        }
        found.push(QueryMatch { pattern_index: raw[i].0, captures });
        i += 1;
    }
    found
}

/// Whether `capture` shows `shown`: it has its name, its node holds what
/// `shown` holds, and its text is the node's text in `source`.
pub open spec fn shows(
    capture: QueryCapture,
    shown: (Seq<char>, SyntaxTree),
    source: Seq<char>,
) -> bool {
    &&& capture.name@ == shown.0
    &&& syntax_tree(capture.node) == shown.1
    &&& capture.text@ == capture_text(shown.1, source)
}

/// Whether `found` tell the matches `matches` of a query, in their order:
/// each match with the index of its pattern and with its captures in their
/// order.
pub open spec fn tell_matches(
    found: Seq<QueryMatch>,
    matches: Seq<(usize, Seq<(Seq<char>, SyntaxTree)>)>,
    source: Seq<char>,
) -> bool {
    &&& found.len() == matches.len()
    &&& forall|i: int|
        0 <= i < matches.len() ==> {
            &&& (#[trigger] found[i]).pattern_index == matches[i].0
            &&& found[i].captures@.len() == matches[i].1.len()
            &&& forall|j: int|
                0 <= j < matches[i].1.len() ==> shows(
                    #[trigger] found[i].captures@[j],
                    matches[i].1[j],
                    source,
                )
        }
}

/// Matches with the texts of their captures tell these matches.
pub proof fn lemma_matches_told(
    found: Seq<QueryMatch>,
    raw: Seq<(usize, Vec<(String, tree_sitter::Node)>)>,
    source: Seq<char>,
)
    requires
        are_matches(found, raw, source),
    ensures
        tell_matches(found, match_views(raw), source),
{
    let matches = match_views(raw);
    assert forall|i: int| 0 <= i < matches.len() implies {
        &&& (#[trigger] found[i]).pattern_index == matches[i].0
        &&& found[i].captures@.len() == matches[i].1.len()
        &&& forall|j: int|
            0 <= j < matches[i].1.len() ==> shows(
                #[trigger] found[i].captures@[j],
                matches[i].1[j],
                source,
            )
    } by {
        assert(matches[i] == (raw[i].0, capture_views(raw[i].1@)));
        assert forall|j: int| 0 <= j < matches[i].1.len() implies shows(
            #[trigger] found[i].captures@[j],
            matches[i].1[j],
            source,
        ) by {
            assert(is_capture(found[i].captures@[j], raw[i].1@[j].0@, raw[i].1@[j].1, source));
            assert(matches[i].1[j] == (raw[i].1@[j].0@, syntax_tree(raw[i].1@[j].1)));
        }
    }
}

/// Runs a query on the tree of `source`: its matches in the order in which
/// they are found, each with the index of its pattern and with its
/// captures, each capture with its name, its node and the text of its node.
/// It fails where the tree does not end within `source`, which then is not
/// the text that the tree was made of, and where `query_str` is no query
/// for the grammar of Dart.
pub fn query_tree<'a>(tree: &'a tree_sitter::Tree, source: &str, query_str: &str) -> (r: Result<
    Vec<QueryMatch<'a>>,
    AnalyzerError,
>)
    ensures
        if tree_syntax(*tree).end_byte > encode_utf8(source@).len() {
            r matches Err(e) && is_parse_error(e, "Source is shorter than the syntax tree"@)
        } else {
            match query_matches(*tree, source@, query_str@) {
                Some(matches) => r matches Ok(found) && tell_matches(found@, matches, source@),
                None => r matches Err(e) && is_parse_error(
                    e,
                    "Failed to parse tree-sitter query"@,
                ),
            }
        },
{
    let root = tree_root(tree);
    if node_end_byte(&root) > source.as_bytes().len() {
        return Err(AnalyzerError::Parse("Source is shorter than the syntax tree".to_owned()));
    }
    match run_query(tree, source, query_str) {
        Ok(raw) => {
            let ghost views = raw@;
            let found = with_texts(raw, source);
            proof {
                lemma_matches_told(found@, views, source@);
            }
            Ok(found)
        },
        Err(_) => Err(AnalyzerError::Parse("Failed to parse tree-sitter query".to_owned())),
    }
}

/// A parser that keeps the tree of the text it parsed last, and parses an
/// edited text with the help of that tree.
pub struct IncrementalParser {
    parser: tree_sitter::Parser,
    parsed: Option<tree_sitter::Tree>,
    root: Option<SyntaxNode>,
    source: String,
}

impl IncrementalParser {
    /// The text that the parser was given last.
    pub closed spec fn source_text(&self) -> Seq<char> {
        self.source@
    }

    /// The tree of the text that was parsed last, as the parser holds it.
    pub closed spec fn parsed_tree(&self) -> Option<&tree_sitter::Tree> {
        match self.parsed {
            Some(tree) => Some(&tree),
            None => None,
        }
    }

    /// The parser that parses the texts.
    pub closed spec fn parser_state(&self) -> tree_sitter::Parser {
        self.parser
    }

    /// The nodes of the tree of the text that was parsed last.
    pub closed spec fn current(&self) -> Option<SyntaxTree> {
        match self.root {
            Some(root) => Some(root@),
            None => None,
        }
    }

    /// A parser for Dart that has parsed nothing yet. It fails where the
    /// grammar cannot be used with the parser.
    pub fn new() -> (r: Result<Self, AnalyzerError>)
        ensures
            match r {
                Ok(p) => {
                    &&& parses_dart(p.parser_state())
                    &&& p.current() is None
                    &&& p.parsed_tree() is None
                    &&& p.source_text().len() == 0
                },
                Err(e) => is_parse_error(e, "Failed to load Dart grammar for tree-sitter"@)
                    && dart_grammar_refused(),
            },
    {
        match create_dart_parser() {
            Ok(parser) => Ok(
                IncrementalParser { parser, parsed: None, root: None, source: String::new() },
            ),
            Err(e) => Err(e),
        }
    }

    /// Whether `after` is what `before` becomes, and `r` what is returned,
    /// when `source` is parsed from its start: it succeeds where the parser
    /// makes a tree of `source`, which the parser then holds with its nodes;
    /// where the parser makes none, the tree and the nodes stay as they
    /// were.
    pub open spec fn parsed_anew(
        before: Self,
        after: Self,
        source: Seq<char>,
        r: Result<(), AnalyzerError>,
    ) -> bool {
        match parsed_syntax(before.parser_state(), source) {
            Some(syntax) => {
                &&& r is Ok
                &&& after.current() == Some(syntax)
                &&& after.parsed_tree() matches Some(tree) && tree_syntax(*tree) == syntax
            },
            None => {
                &&& r matches Err(e) && is_parse_error(e, "Failed to parse Dart source code"@)
                &&& after.current() == before.current()
                &&& after.parsed_tree() == before.parsed_tree()
            },
        }
    }

    /// Whether `after` is what `before`, which holds a tree, becomes, and
    /// `r` what is returned, when an edited text is parsed with the help of
    /// that tree: on success the parser holds the new tree with its nodes;
    /// else it holds the edited tree, and the nodes stay as they were.
    pub open spec fn parsed_again(before: Self, after: Self, r: Result<(), AnalyzerError>) -> bool {
        match r {
            Ok(_) => after.parsed_tree() matches Some(tree) && after.current() == Some(
                tree_syntax(*tree),
            ),
            Err(e) => {
                &&& is_parse_error(e, "Failed to reparse Dart source code"@)
                &&& after.current() == before.current()
                &&& after.parsed_tree() is Some
            },
        }
    }

    /// Parses `source` from its start. Where that fails, the parser keeps
    /// the tree it had.
    pub fn parse(&mut self, source: &str) -> (r: Result<(), AnalyzerError>)
        ensures
            final(self).source_text() == source@,
            Self::parsed_anew(*old(self), *final(self), source@, r),
    {
        self.source = source.to_owned();
        match parser_parse(&mut self.parser, source, None) {
            Some(tree) => {
                self.root = Some(to_syntax_node(&tree_root(&tree)));
                self.parsed = Some(tree);
                Ok(())
            },
            None => Err(AnalyzerError::Parse("Failed to parse Dart source code".to_owned())),
        }
    }

    /// Tells the tree of the edits that turned the text parsed last into
    /// `new_source`, and parses `new_source` with the help of that tree;
    /// from its start where nothing was parsed yet. Where the parser gives
    /// up, the nodes stay those of the text parsed last. Whether the parser
    /// makes a tree with the help of an earlier one is for it to decide.
    pub fn reparse_with_edits(&mut self, edits: &[Edit], new_source: &str) -> (r: Result<
        (),
        AnalyzerError,
    >)
        ensures
            final(self).source_text() == new_source@,
            if old(self).parsed_tree() is None {
                Self::parsed_anew(*old(self), *final(self), new_source@, r)
            } else {
                Self::parsed_again(*old(self), *final(self), r)
            },
    {
        match self.parsed.take() {
            Some(tree) => {
                let mut tree = tree;
                let mut i: usize = 0;
                while i < edits.len()
                    invariant
                        i <= edits@.len(),
                    decreases edits@.len() - i,
                {
                    tree_edit(&mut tree, &edits[i]);
                    i += 1;
                }
                self.source = new_source.to_owned();
                match parser_parse(&mut self.parser, new_source, Some(&tree)) {
                    Some(new_tree) => {
                        self.root = Some(to_syntax_node(&tree_root(&new_tree)));
                        self.parsed = Some(new_tree);
                        Ok(())
                    },
                    None => {
                        self.parsed = Some(tree);
                        Err(
                            AnalyzerError::Parse("Failed to reparse Dart source code".to_owned()),
                        )
                    },
                }
            },
            None => self.parse(new_source),
        }
    }

    /// Tells the tree of one edit and parses `new_source` with the help of
    /// that tree; from its start where nothing was parsed yet.
    pub fn reparse(&mut self, edit: Edit, new_source: &str) -> (r: Result<(), AnalyzerError>)
        ensures
            final(self).source_text() == new_source@,
            if old(self).parsed_tree() is None {
                Self::parsed_anew(*old(self), *final(self), new_source@, r)
            } else {
                Self::parsed_again(*old(self), *final(self), r)
            },
    {
        let mut edits: Vec<Edit> = Vec::new();
        edits.push(edit);
        self.reparse_with_edits(edits.as_slice(), new_source)
    }

    /// The tree of the text that was parsed last, as the parser holds it.
    pub fn tree(&self) -> (r: Option<&tree_sitter::Tree>)
        ensures
            r == self.parsed_tree(),
    {
        self.parsed.as_ref()
    }

    /// The nodes of the tree of the text that was parsed last.
    pub fn root(&self) -> (r: Option<&SyntaxNode>)
        ensures
            match r {
                Some(root) => self.current() == Some(root@),
                None => self.current() is None,
            },
    {
        self.root.as_ref()
    }

    /// The text that the parser was given last.
    pub fn source(&self) -> (r: &str)
        ensures
            r@ == self.source_text(),
    {
        self.source.as_str()
    }
}

} // verus!
