//! Syntax trees of Dart sources, as the `tree-sitter` crate parses them with
//! the grammar of the `tree-sitter-dart` crate.
//!
//! The crates' parser, trees and nodes are opaque here. What a node holds is
//! told by `syntax_tree`, what a parser and a query return by the other
//! names declared here; the functions below hand the crates' operations on,
//! each with a contract that says over these names what the crates' source
//! shows. `to_syntax_node` copies a node and all below it into a value of
//! the library's own, on which the rest of the library works.

use crate::text::str_from_utf8;
use crate::treesitter::{Edit, Point};
use vstd::prelude::*;
use vstd::slice::slice_subrange;
use vstd::utf8::{decode_utf8, encode_utf8, valid_utf8};

verus! {

/// `tree_sitter::Node`, a node of a tree. Nothing inside it is seen here.
#[verifier::external_type_specification]
#[verifier::external_body]
pub struct ExTsNode<'a>(tree_sitter::Node<'a>);

/// `tree_sitter::Tree`, a syntax tree. Nothing inside it is seen here.
#[verifier::external_type_specification]
#[verifier::external_body]
pub struct ExTsTree(tree_sitter::Tree);

/// `tree_sitter::Parser`. Nothing inside it is seen here.
#[verifier::external_type_specification]
#[verifier::external_body]
pub struct ExTsParser(tree_sitter::Parser);

/// `tree_sitter::Language`, a grammar. It is only passed on.
#[verifier::external_type_specification]
#[verifier::external_body]
pub struct ExTsLanguage(tree_sitter::Language);

/// `tree_sitter::LanguageError`, why a grammar cannot be used. It is only
/// passed on.
#[verifier::external_type_specification]
#[verifier::external_body]
pub struct ExTsLanguageError(tree_sitter::LanguageError);

/// `tree_sitter::QueryError`, why a text is no query. It is only passed
/// on.
#[verifier::external_type_specification]
#[verifier::external_body]
pub struct ExTsQueryError(tree_sitter::QueryError);

/// A node of a syntax tree with all that is below it.
#[derive(Debug)]
pub struct SyntaxNode {
    /// The node's type in the grammar.
    pub kind: String,
    pub start_byte: usize,
    pub end_byte: usize,
    pub start_point: Point,
    pub end_point: Point,
    /// Whether the node is a syntax error or has one below it.
    pub has_error: bool,
    /// The first child that the grammar holds in the field `name`.
    pub name: Option<Box<SyntaxNode>>,
    /// All children, in order.
    pub children: Vec<SyntaxNode>,
}

/// What a syntax node holds.
pub ghost struct SyntaxTree {
    pub kind: Seq<char>,
    pub start_byte: usize,
    pub end_byte: usize,
    pub start_point: Point,
    pub end_point: Point,
    pub has_error: bool,
    pub name: Option<Box<SyntaxTree>>,
    pub children: Seq<SyntaxTree>,
}

/// What `node` holds.
pub open spec fn tree_of(node: SyntaxNode) -> SyntaxTree
    decreases node,
{
    SyntaxTree {
        kind: node.kind@,
        start_byte: node.start_byte,
        end_byte: node.end_byte,
        start_point: node.start_point,
        end_point: node.end_point,
        has_error: node.has_error,
        name: match node.name {
            Some(b) => Some(Box::new(tree_of(*b))),
            None => None,
        },
        children: Seq::new(
            node.children@.len(),
            |i: int|
                if 0 <= i < node.children@.len() {
                    tree_of(node.children@[i])
                } else {
                    arbitrary()
                },
        ),
    }
}

impl View for SyntaxNode {
    type V = SyntaxTree;

    open spec fn view(&self) -> SyntaxTree {
        tree_of(*self)
    }
}

/// The view of a node holds the views of the node's name and children.
pub proof fn lemma_node_view(node: SyntaxNode)
    ensures
        node@.kind == node.kind@,
        node@.start_byte == node.start_byte,
        node@.end_byte == node.end_byte,
        node@.start_point == node.start_point,
        node@.end_point == node.end_point,
        node@.has_error == node.has_error,
        node@.name == (match node.name {
            Some(b) => Some(Box::new((*b)@)),
            None => None,
        }),
        node@.children.len() == node.children@.len(),
        forall|i: int|
            0 <= i < node.children@.len() ==> #[trigger] node@.children[i] == node.children@[i]@,
{
    reveal_with_fuel(tree_of, 2);
}

/// What the node `node` holds: its type, its extent, whether there is a
/// syntax error in it, its children in order, and the child in its field
/// `name`.
pub uninterp spec fn syntax_tree(node: tree_sitter::Node) -> SyntaxTree;

/// What the root of the tree `tree` holds.
pub uninterp spec fn tree_syntax(tree: tree_sitter::Tree) -> SyntaxTree;

/// Whether `language` is the grammar that `tree_sitter_dart::language`
/// returns.
pub uninterp spec fn is_dart_grammar(language: tree_sitter::Language) -> bool;

/// Whether `Parser::set_language` accepts `language`: whether the grammar
/// was made for a version of the parser that this one can work with.
pub uninterp spec fn grammar_accepted(language: tree_sitter::Language) -> bool;

/// The language that `Parser::language` tells of `parser`: the one that
/// was assigned to it last.
pub uninterp spec fn parser_language(parser: tree_sitter::Parser) -> Option<tree_sitter::Language>;

/// What the root holds of the tree that `Parser::parse` returns when
/// `parser` parses `source` without an earlier tree; `None` where it
/// returns no tree.
pub uninterp spec fn parsed_syntax(parser: tree_sitter::Parser, source: Seq<char>) -> Option<
    SyntaxTree,
>;

/// The matches that a cursor yields for the query `query` on `tree` with
/// the text `source`, in its order: for each match the index of its pattern
/// and its captures, each by its name in the query and by what its node
/// holds. `None` where `Query::new` does not take `query` for a query on
/// the grammar of Dart.
pub uninterp spec fn query_matches(
    tree: tree_sitter::Tree,
    source: Seq<char>,
    query: Seq<char>,
) -> Option<Seq<(usize, Seq<(Seq<char>, SyntaxTree)>)>>;

/// The captures of one match, each by its name and by what its node holds.
pub open spec fn capture_views(captures: Seq<(String, tree_sitter::Node)>) -> Seq<
    (Seq<char>, SyntaxTree),
> {
    Seq::new(captures.len(), |j: int| (captures[j].0@, syntax_tree(captures[j].1)))
}

/// The matches of a query, each by the index of its pattern and by its
/// captures.
pub open spec fn match_views(raw: Seq<(usize, Vec<(String, tree_sitter::Node)>)>) -> Seq<
    (usize, Seq<(Seq<char>, SyntaxTree)>),
> {
    Seq::new(raw.len(), |i: int| (raw[i].0, capture_views(raw[i].1@)))
}

/// `Node::kind`: the node's type.
#[verifier::external_body]
pub(crate) fn node_kind(node: &tree_sitter::Node) -> (r: String)
    ensures
        r@ == syntax_tree(*node).kind,
{
    node.kind().to_owned()
}

/// `Node::start_byte`: where the node starts.
#[verifier::external_body]
pub(crate) fn node_start_byte(node: &tree_sitter::Node) -> (r: usize)
    ensures
        r == syntax_tree(*node).start_byte,
{
    node.start_byte()
}

/// `Node::end_byte`: where the node ends.
#[verifier::external_body]
pub(crate) fn node_end_byte(node: &tree_sitter::Node) -> (r: usize)
    ensures
        r == syntax_tree(*node).end_byte,
{
    node.end_byte()
}

/// `Node::start_position`: the row and column at which the node starts.
#[verifier::external_body]
pub(crate) fn node_start_position(node: &tree_sitter::Node) -> (r: Point)
    ensures
        r == syntax_tree(*node).start_point,
{
    let p = node.start_position();
    Point { row: p.row, column: p.column }
}

/// `Node::end_position`: the row and column at which the node ends.
#[verifier::external_body]
pub(crate) fn node_end_position(node: &tree_sitter::Node) -> (r: Point)
    ensures
        r == syntax_tree(*node).end_point,
{
    let p = node.end_position();
    Point { row: p.row, column: p.column }
}

/// `Node::has_error`: whether the node is a syntax error or has one below
/// it.
#[verifier::external_body]
pub(crate) fn node_has_error(node: &tree_sitter::Node) -> (r: bool)
    ensures
        r == syntax_tree(*node).has_error,
{
    node.has_error()
}

/// `Node::children`, with a cursor of the node: the node's children in
/// order.
#[verifier::external_body]
pub(crate) fn node_children<'a>(node: &tree_sitter::Node<'a>) -> (r: Vec<tree_sitter::Node<'a>>)
    ensures
        r@.len() == syntax_tree(*node).children.len(),
        forall|i: int|
            0 <= i < r@.len() ==> syntax_tree(#[trigger] r@[i]) == syntax_tree(*node).children[i],
{
    node.children(&mut node.walk()).collect()
}

/// `Node::child_by_field_name`: the first child in the field `field`. For
/// the field `name` this is the child that the node's tree holds as its
/// name.
#[verifier::external_body]
pub(crate) fn node_field_child<'a>(node: &tree_sitter::Node<'a>, field: &str) -> (r: Option<
    tree_sitter::Node<'a>,
>)
    ensures
        field@ == "name"@ ==> (match r {
            Some(child) => syntax_tree(*node).name == Some(Box::new(syntax_tree(child))),
            None => syntax_tree(*node).name is None,
        }),
{
    node.child_by_field_name(field)
}

/// `Parser::new`: a parser without a language.
#[verifier::external_body]
pub(crate) fn parser_new() -> tree_sitter::Parser {
    tree_sitter::Parser::new()
}

/// `tree_sitter_dart::language`: the grammar of Dart.
#[verifier::external_body]
pub(crate) fn dart_language() -> (r: tree_sitter::Language)
    ensures
        is_dart_grammar(r),
{
    tree_sitter_dart::language()
}

/// `Parser::set_language`: whether the language is accepted depends on
/// the language alone; where it is, it is the parser's language from now
/// on.
#[verifier::external_body]
pub(crate) fn parser_set_language(
    parser: &mut tree_sitter::Parser,
    language: &tree_sitter::Language,
) -> (r: Result<(), tree_sitter::LanguageError>)
    ensures
        r is Ok <==> grammar_accepted(*language),
        r is Ok ==> parser_language(*final(parser)) == Some(*language),
{
    parser.set_language(language)
}

/// `Parser::parse`: the tree of `source`, for which the parser may reuse
/// parts of the edited tree of an earlier text; `None` where the parser
/// gives up. Without an earlier tree the result is told by
/// `parsed_syntax`; with one, nothing is said of it.
#[verifier::external_body]
pub(crate) fn parser_parse(
    parser: &mut tree_sitter::Parser,
    source: &str,
    old_tree: Option<&tree_sitter::Tree>,
) -> (r: Option<tree_sitter::Tree>)
    ensures
        old_tree is None ==> (match r {
            Some(tree) => parsed_syntax(*old(parser), source@) == Some(tree_syntax(tree)),
            None => parsed_syntax(*old(parser), source@) is None,
        }),
{
    parser.parse(source, old_tree)
}

/// `Tree::root_node`: the root of the tree.
#[verifier::external_body]
pub(crate) fn tree_root<'a>(tree: &'a tree_sitter::Tree) -> (r: tree_sitter::Node<'a>)
    ensures
        syntax_tree(r) == tree_syntax(*tree),
{
    tree.root_node()
}

/// `Tree::edit`: tells the tree of an edit of its text.
#[verifier::external_body]
pub(crate) fn tree_edit(tree: &mut tree_sitter::Tree, edit: &Edit) {
    let (s, o, n) = (edit.start_position, edit.old_end_position, edit.new_end_position);
    tree.edit(&tree_sitter::InputEdit {
        start_byte: edit.start_byte,
        old_end_byte: edit.old_end_byte,
        new_end_byte: edit.new_end_byte,
        start_position: tree_sitter::Point::new(s.0, s.1),
        old_end_position: tree_sitter::Point::new(o.0, o.1),
        new_end_position: tree_sitter::Point::new(n.0, n.1),
    })
}

/// Runs a query on a tree, with `Query::new` for the grammar of Dart and
/// `QueryCursor::matches`: for each match, in the order in which the cursor
/// yields them, the index of its pattern and its captures, each by its name
/// in the query and its node; or the crate's error where the text is no
/// query. The cursor reads the text of captured nodes from `source`, so
/// the tree has to end within it.
#[verifier::external_body]
pub(crate) fn run_query<'a>(tree: &'a tree_sitter::Tree, source: &str, query: &str) -> (r: Result<
    Vec<(usize, Vec<(String, tree_sitter::Node<'a>)>)>,
    tree_sitter::QueryError,
>)
    requires
        tree_syntax(*tree).end_byte <= encode_utf8(source@).len(),
    ensures
        match r {
            Ok(raw) => query_matches(*tree, source@, query@) == Some(match_views(raw@)),
            Err(_) => query_matches(*tree, source@, query@) is None,
        },
{
    let query = tree_sitter::Query::new(&tree_sitter_dart::language(), query)?;
    let names = query.capture_names();
    let mut cursor = tree_sitter::QueryCursor::new();
    let matches = cursor.matches(&query, tree.root_node(), source.as_bytes());
    let named = |c: &tree_sitter::QueryCapture<'a>| (names[c.index as usize].to_string(), c.node);
    let found = tree_sitter::StreamingIterator::map_deref(matches, |m| {
        (m.pattern_index, m.captures().iter().map(named).collect())
    });
    Ok(found.collect())
}

/// Copies a node and all that is below it.
pub fn to_syntax_node(node: &tree_sitter::Node) -> (r: SyntaxNode)
    ensures
        r@ == syntax_tree(*node),
    decreases syntax_tree(*node),
{
    let ghost tree = syntax_tree(*node);
    let nodes = node_children(node);
    let mut children: Vec<SyntaxNode> = Vec::new();
    let mut i: usize = 0;
    while i < nodes.len()
        invariant
            i <= nodes@.len(),
            tree == syntax_tree(*node),
            nodes@.len() == tree.children.len(),
            forall|j: int|
                0 <= j < nodes@.len() ==> syntax_tree(#[trigger] nodes@[j]) == tree.children[j],
            children@.len() == i,
            forall|j: int| 0 <= j < i ==> (#[trigger] children@[j])@ == tree.children[j],
        decreases nodes@.len() - i,
    {
        let child = to_syntax_node(&nodes[i]);
        children.push(child);
        i += 1;
    }
    let name = match node_field_child(node, "name") {
        Some(n) => {
            proof {
                let inner = tree.name->0;
                assert(decreases_to!(tree => inner));
                assert(decreases_to!(tree => *inner));
            }
            Some(Box::new(to_syntax_node(&n)))
        },
        None => None,
    };
    let r = SyntaxNode {
        kind: node_kind(node),
        start_byte: node_start_byte(node),
        end_byte: node_end_byte(node),
        start_point: node_start_position(node),
        end_point: node_end_position(node),
        has_error: node_has_error(node),
        name,
        children,
    };
    assert(r@.children =~= tree.children);
    r
}

/// The text of the bytes from `start` to `end` of `source`; `None` where
/// these bytes are not in the source or are no text.
pub open spec fn text_between(source: Seq<char>, start: usize, end: usize) -> Option<Seq<char>> {
    let bytes = encode_utf8(source);
    if start <= end <= bytes.len() && valid_utf8(bytes.subrange(start as int, end as int)) {
        Some(decode_utf8(bytes.subrange(start as int, end as int)))
    } else {
        None
    }
}

/// The text of a node in the source it was parsed from.
pub open spec fn text_of(tree: SyntaxTree, source: Seq<char>) -> Option<Seq<char>> {
    text_between(source, tree.start_byte, tree.end_byte)
}

/// The text of the name of a node in the source it was parsed from.
pub open spec fn name_text_of(tree: SyntaxTree, source: Seq<char>) -> Option<Seq<char>> {
    match tree.name {
        Some(name) => text_of(*name, source),
        None => None,
    }
}

impl SyntaxNode {
    /// The text of the node in `source`, which is the text that the node
    /// was parsed from.
    pub fn text(&self, source: &str) -> (r: Option<String>)
        ensures
            r.deep_view() == text_of(self@, source@),
    {
        let bytes = source.as_bytes();
        if self.start_byte <= self.end_byte && self.end_byte <= bytes.len() {
            match str_from_utf8(slice_subrange(bytes, self.start_byte, self.end_byte)) {
                Some(s) => Some(s.to_owned()),
                None => None,
            }
        } else {
            None
        }
    }

    /// The text of the node's name, where it has a name that is text.
    pub fn name_text(&self, source: &str) -> (r: Option<String>)
        ensures
            r.deep_view() == name_text_of(self@, source@),
    {
        proof {
            lemma_node_view(*self);
        }
        match &self.name {
            Some(name) => name.text(source),
            None => None,
        }
    }

    /// Whether the node is of the type `kind`.
    pub fn is_kind(&self, kind: &str) -> (r: bool)
        ensures
            r == (self@.kind == kind@),
    {
        crate::text::str_eq(self.kind.as_str(), kind)
    }
}

} // verus!
