//! What a syntax tree of a Dart source tells: its tokens, classes,
//! methods, imports and expressions.

use crate::treesitter::syntax::{
    lemma_node_view, name_text_of, text_of, SyntaxNode, SyntaxTree,
};
use crate::treesitter::{Token, TokenView};
use vstd::prelude::*;

verus! {

/// A node met on a walk through a tree, with the node above it and its
/// place among that node's children.
pub struct Visit<'a> {
    pub node: &'a SyntaxNode,
    pub parent: Option<&'a SyntaxNode>,
    pub index: usize,
}

/// What a `Visit` holds.
pub ghost struct VisitView {
    pub node: SyntaxTree,
    pub parent: Option<SyntaxTree>,
    pub index: int,
}

impl<'a> View for Visit<'a> {
    type V = VisitView;

    open spec fn view(&self) -> VisitView {
        VisitView {
            node: self.node@,
            parent: match self.parent {
                Some(p) => Some(p@),
                None => None,
            },
            index: self.index as int,
        }
    }
}

impl<'a> DeepView for Visit<'a> {
    type V = VisitView;

    open spec fn deep_view(&self) -> VisitView {
        self@
    }
}

/// The nodes of a tree in the order of the text: a node, then what is
/// below its first child, and so on.
pub open spec fn preorder(tree: SyntaxTree, parent: Option<SyntaxTree>, index: int) -> Seq<
    VisitView,
>
    decreases tree, 0int,
{
    seq![VisitView { node: tree, parent, index }] + preorder_children(
        tree.children,
        tree,
        tree.children.len() as int,
    )
}

/// The nodes below the first `upto` of the children of `parent`, in the
/// order of the text.
pub open spec fn preorder_children(children: Seq<SyntaxTree>, parent: SyntaxTree, upto: int) -> Seq<
    VisitView,
>
    decreases children, upto,
{
    if upto <= 0 || upto > children.len() {
        Seq::empty()
    } else {
        preorder_children(children, parent, upto - 1) + preorder(
            children[upto - 1],
            Some(parent),
            upto - 1,
        )
    }
}

/// What `f` finds at the first `upto` of `visits`, in order.
pub open spec fn gather<T>(
    visits: Seq<VisitView>,
    f: spec_fn(VisitView) -> Seq<T>,
    upto: int,
) -> Seq<T>
    decreases upto,
{
    if upto <= 0 {
        Seq::empty()
    } else {
        gather(visits, f, upto - 1) + f(visits[upto - 1])
    }
}

/// What `f` finds in a tree, in the order of the text.
pub open spec fn gather_all<T>(tree: SyntaxTree, f: spec_fn(VisitView) -> Seq<T>) -> Seq<T> {
    gather(preorder(tree, None, 0), f, preorder(tree, None, 0).len() as int)
}

/// The one thing that was found, or nothing.
pub open spec fn found<T>(item: Option<T>) -> Seq<T> {
    match item {
        Some(x) => seq![x],
        None => Seq::empty(),
    }
}

/// Appends the nodes of the tree below `node` to `out`, in the order of
/// the text.
pub fn walk<'a>(
    node: &'a SyntaxNode,
    parent: Option<&'a SyntaxNode>,
    index: usize,
    out: &mut Vec<Visit<'a>>,
)
    ensures
        final(out).deep_view() == old(out).deep_view() + preorder(
            node@,
            (Visit { node, parent, index })@.parent,
            index as int,
        ),
    decreases node,
{
    let ghost before = out.deep_view();
    let visit = Visit { node, parent, index };
    out.push(visit);
    let ghost own = seq![visit@];
    assert(out.deep_view() =~= before + own);
    let n = node.children.len();
    let mut i: usize = 0;
    proof {
        lemma_node_view(*node);
    }
    assert(out.deep_view() =~= before + own + preorder_children(node@.children, node@, 0));
    while i < n
        invariant
            i <= n,
            n == node.children@.len(),
            n == node@.children.len(),
            forall|k: int|
                0 <= k < n ==> #[trigger] node@.children[k] == node.children@[k]@,
            out.deep_view() == before + own + preorder_children(node@.children, node@, i as int),
        decreases n - i,
    {
        let ghost so_far = out.deep_view();
        assert(node.children@[i as int]@ == node@.children[i as int]);
        walk(&node.children[i], Some(node), i, out);
        assert(out.deep_view() =~= before + own + preorder_children(
            node@.children,
            node@,
            i + 1,
        ));
        i += 1;
    }
    assert(out.deep_view() =~= before + preorder(node@, visit@.parent, index as int));
}

/// The nodes of the tree below `root`, in the order of the text.
pub fn visits<'a>(root: &'a SyntaxNode) -> (out: Vec<Visit<'a>>)
    ensures
        out.deep_view() == preorder(root@, None, 0),
{
    let mut out: Vec<Visit<'a>> = Vec::new();
    assert(out.deep_view() =~= Seq::<VisitView>::empty());
    walk(root, None, 0, &mut out);
    assert(Seq::<VisitView>::empty() + preorder(root@, None, 0) =~= preorder(root@, None, 0));
    out
}

/// The token that a node is: a node without children whose text can be
/// read.
pub open spec fn token_at(tree: SyntaxTree, source: Seq<char>) -> Seq<TokenView> {
    if tree.children.len() == 0 {
        match text_of(tree, source) {
            Some(text) => seq![
                TokenView {
                    kind: tree.kind,
                    text,
                    start_byte: tree.start_byte,
                    end_byte: tree.end_byte,
                    start_point: tree.start_point,
                    end_point: tree.end_point,
                },
            ],
            None => Seq::empty(),
        }
    } else {
        Seq::empty()
    }
}

/// What finds the tokens of a source.
pub open spec fn token_finder(source: Seq<char>) -> spec_fn(VisitView) -> Seq<TokenView> {
    |v: VisitView| token_at(v.node, source)
}

/// The tokens of a source: the leaves of its tree, in the order of the
/// text.
pub fn extract_tokens(tree: &SyntaxNode, source: &str) -> (out: Vec<Token>)
    ensures
        out.deep_view() == gather_all(tree@, token_finder(source@)),
{
    let all = visits(tree);
    let mut out: Vec<Token> = Vec::new();
    let mut i: usize = 0;
    assert(out.deep_view() =~= Seq::<TokenView>::empty());
    while i < all.len()
        invariant
            i <= all@.len(),
            out.deep_view() == gather(all.deep_view(), token_finder(source@), i as int),
        decreases all@.len() - i,
    {
        let node = all[i].node;
        let ghost so_far = out.deep_view();
        proof {
            lemma_node_view(*node);
            assert(all.deep_view()[i as int].node == node@);
        }
        if node.children.len() == 0 {
            match node.text(source) {
                Some(text) => {
                    let token = Token {
                        kind: node.kind.clone(),
                        text,
                        start_byte: node.start_byte,
                        end_byte: node.end_byte,
                        start_point: node.start_point,
                        end_point: node.end_point,
                    };
                    out.push(token);
                    assert(out.deep_view() =~= so_far + seq![token@]);
                },
                None => {},
            }
        }
        assert(out.deep_view() =~= so_far + token_at(node@, source@));
        i += 1;
    }
    out
}

/// A class, by its definition.
#[derive(Debug)]
pub struct DartClass<'a> {
    pub name: String,
    pub node: &'a SyntaxNode,
    pub start_byte: usize,
    pub end_byte: usize,
}

/// A method or a function, by its signature.
#[derive(Debug)]
pub struct DartMethod<'a> {
    pub name: String,
    pub node: &'a SyntaxNode,
    pub start_byte: usize,
    pub end_byte: usize,
}

/// An import or export, by the URI it names.
#[derive(Debug)]
pub struct DartImport<'a> {
    pub uri: String,
    pub node: &'a SyntaxNode,
    pub start_byte: usize,
    pub end_byte: usize,
}

/// An expression, by its type and text.
#[derive(Debug)]
pub struct DartExpression<'a> {
    pub kind: String,
    pub text: String,
    pub node: &'a SyntaxNode,
    pub start_byte: usize,
    pub end_byte: usize,
}

/// What a `DartClass`, a `DartMethod` or a `DartImport` holds: the name
/// or URI, and the node with its extent.
pub ghost struct NamedNode {
    pub name: Seq<char>,
    pub node: SyntaxTree,
    pub start_byte: usize,
    pub end_byte: usize,
}

/// What a `DartExpression` holds.
pub ghost struct DartExpressionView {
    pub kind: Seq<char>,
    pub text: Seq<char>,
    pub node: SyntaxTree,
    pub start_byte: usize,
    pub end_byte: usize,
}

impl<'a> View for DartClass<'a> {
    type V = NamedNode;

    open spec fn view(&self) -> NamedNode {
        NamedNode {
            name: self.name@,
            node: self.node@,
            start_byte: self.start_byte,
            end_byte: self.end_byte,
        }
    }
}

impl<'a> DeepView for DartClass<'a> {
    type V = NamedNode;

    open spec fn deep_view(&self) -> NamedNode {
        self@
    }
}

impl<'a> View for DartMethod<'a> {
    type V = NamedNode;

    open spec fn view(&self) -> NamedNode {
        NamedNode {
            name: self.name@,
            node: self.node@,
            start_byte: self.start_byte,
            end_byte: self.end_byte,
        }
    }
}

impl<'a> DeepView for DartMethod<'a> {
    type V = NamedNode;

    open spec fn deep_view(&self) -> NamedNode {
        self@
    }
}

impl<'a> View for DartImport<'a> {
    type V = NamedNode;

    open spec fn view(&self) -> NamedNode {
        NamedNode {
            name: self.uri@,
            node: self.node@,
            start_byte: self.start_byte,
            end_byte: self.end_byte,
        }
    }
}

impl<'a> DeepView for DartImport<'a> {
    type V = NamedNode;

    open spec fn deep_view(&self) -> NamedNode {
        self@
    }
}

impl<'a> View for DartExpression<'a> {
    type V = DartExpressionView;

    open spec fn view(&self) -> DartExpressionView {
        DartExpressionView {
            kind: self.kind@,
            text: self.text@,
            node: self.node@,
            start_byte: self.start_byte,
            end_byte: self.end_byte,
        }
    }
}

impl<'a> DeepView for DartExpression<'a> {
    type V = DartExpressionView;

    open spec fn deep_view(&self) -> DartExpressionView {
        self@
    }
}

/// The node `tree` under the name `name`.
pub open spec fn named(tree: SyntaxTree, name: Seq<char>) -> NamedNode {
    NamedNode { name, node: tree, start_byte: tree.start_byte, end_byte: tree.end_byte }
}

/// The class that a node declares: a class definition whose name can be
/// read.
pub open spec fn class_at(tree: SyntaxTree, source: Seq<char>) -> Seq<NamedNode> {
    if tree.kind == "class_definition"@ {
        match name_text_of(tree, source) {
            Some(name) => seq![named(tree, name)],
            None => Seq::empty(),
        }
    } else {
        Seq::empty()
    }
}

/// What finds the classes of a source.
pub open spec fn class_finder(source: Seq<char>) -> spec_fn(VisitView) -> Seq<NamedNode> {
    |v: VisitView| class_at(v.node, source)
}

/// The classes of a source, in the order of the text.
pub fn extract_classes<'a>(tree: &'a SyntaxNode, source: &str) -> (out: Vec<DartClass<'a>>)
    ensures
        out.deep_view() == gather_all(tree@, class_finder(source@)),
{
    let all = visits(tree);
    let mut out: Vec<DartClass<'a>> = Vec::new();
    let mut i: usize = 0;
    assert(out.deep_view() =~= Seq::<NamedNode>::empty());
    while i < all.len()
        invariant
            i <= all@.len(),
            out.deep_view() == gather(all.deep_view(), class_finder(source@), i as int),
        decreases all@.len() - i,
    {
        let node = all[i].node;
        let ghost so_far = out.deep_view();
        proof {
            lemma_node_view(*node);
            assert(all.deep_view()[i as int].node == node@);
        }
        if node.is_kind("class_definition") {
            match node.name_text(source) {
                Some(name) => {
                    let class = DartClass {
                        name,
                        node,
                        start_byte: node.start_byte,
                        end_byte: node.end_byte,
                    };
                    out.push(class);
                    assert(out.deep_view() =~= so_far + seq![class@]);
                },
                None => {},
            }
        }
        assert(out.deep_view() =~= so_far + class_at(node@, source@));
        i += 1;
    }
    out
}

/// The method or function that a node declares: a signature whose name
/// can be read.
pub open spec fn method_at(tree: SyntaxTree, source: Seq<char>) -> Seq<NamedNode> {
    if tree.kind == "method_signature"@ || tree.kind == "function_signature"@ {
        match name_text_of(tree, source) {
            Some(name) => seq![named(tree, name)],
            None => Seq::empty(),
        }
    } else {
        Seq::empty()
    }
}

/// What finds the methods and functions of a source.
pub open spec fn method_finder(source: Seq<char>) -> spec_fn(VisitView) -> Seq<NamedNode> {
    |v: VisitView| method_at(v.node, source)
}

/// The methods and functions of a source, in the order of the text.
pub fn extract_methods<'a>(tree: &'a SyntaxNode, source: &str) -> (out: Vec<DartMethod<'a>>)
    ensures
        out.deep_view() == gather_all(tree@, method_finder(source@)),
{
    let all = visits(tree);
    let mut out: Vec<DartMethod<'a>> = Vec::new();
    let mut i: usize = 0;
    assert(out.deep_view() =~= Seq::<NamedNode>::empty());
    while i < all.len()
        invariant
            i <= all@.len(),
            out.deep_view() == gather(all.deep_view(), method_finder(source@), i as int),
        decreases all@.len() - i,
    {
        let node = all[i].node;
        let ghost so_far = out.deep_view();
        proof {
            lemma_node_view(*node);
            assert(all.deep_view()[i as int].node == node@);
        }
        if node.is_kind("method_signature") || node.is_kind("function_signature") {
            match node.name_text(source) {
                Some(name) => {
                    let method = DartMethod {
                        name,
                        node,
                        start_byte: node.start_byte,
                        end_byte: node.end_byte,
                    };
                    out.push(method);
                    assert(out.deep_view() =~= so_far + seq![method@]);
                },
                None => {},
            }
        }
        assert(out.deep_view() =~= so_far + method_at(node@, source@));
        i += 1;
    }
    out
}

/// Whether a node is a URI.
pub open spec fn is_uri(tree: SyntaxTree) -> bool {
    tree.kind == "configurable_uri"@ || tree.kind == "uri"@
}

/// The text of the first URI among the children from `from` on whose text
/// can be read.
pub open spec fn first_uri(children: Seq<SyntaxTree>, source: Seq<char>, from: int) -> Option<
    Seq<char>,
>
    decreases children.len() - from,
{
    if from < 0 || from >= children.len() {
        None
    } else if is_uri(children[from]) && text_of(children[from], source) is Some {
        text_of(children[from], source)
    } else {
        first_uri(children, source, from + 1)
    }
}

/// The import that a node is: an import, export or import specification
/// with a URI.
pub open spec fn import_at(tree: SyntaxTree, source: Seq<char>) -> Seq<NamedNode> {
    if tree.kind == "import_or_export"@ || tree.kind == "import_specification"@ {
        match first_uri(tree.children, source, 0) {
            Some(uri) => seq![named(tree, uri)],
            None => Seq::empty(),
        }
    } else {
        Seq::empty()
    }
}

/// What finds the imports of a source.
pub open spec fn import_finder(source: Seq<char>) -> spec_fn(VisitView) -> Seq<NamedNode> {
    |v: VisitView| import_at(v.node, source)
}

/// The text of the first URI among the children of `node`.
pub fn uri_of(node: &SyntaxNode, source: &str) -> (r: Option<String>)
    ensures
        r.deep_view() == first_uri(node@.children, source@, 0),
{
    proof {
        lemma_node_view(*node);
    }
    let n = node.children.len();
    let mut i: usize = 0;
    while i < n
        invariant
            i <= n,
            n == node.children@.len(),
            n == node@.children.len(),
            forall|k: int| 0 <= k < n ==> #[trigger] node@.children[k] == node.children@[k]@,
            first_uri(node@.children, source@, i as int) == first_uri(node@.children, source@, 0),
        decreases n - i,
    {
        let child = &node.children[i];
        proof {
            lemma_node_view(*child);
            assert(node@.children[i as int] == child@);
        }
        if child.is_kind("configurable_uri") || child.is_kind("uri") {
            match child.text(source) {
                Some(uri) => {
                    return Some(uri);
                },
                None => {},
            }
        }
        i += 1;
    }
    None
}

/// The imports and exports of a source, in the order of the text.
pub fn extract_imports<'a>(tree: &'a SyntaxNode, source: &str) -> (out: Vec<DartImport<'a>>)
    ensures
        out.deep_view() == gather_all(tree@, import_finder(source@)),
{
    let all = visits(tree);
    let mut out: Vec<DartImport<'a>> = Vec::new();
    let mut i: usize = 0;
    assert(out.deep_view() =~= Seq::<NamedNode>::empty());
    while i < all.len()
        invariant
            i <= all@.len(),
            out.deep_view() == gather(all.deep_view(), import_finder(source@), i as int),
        decreases all@.len() - i,
    {
        let node = all[i].node;
        let ghost so_far = out.deep_view();
        proof {
            lemma_node_view(*node);
            assert(all.deep_view()[i as int].node == node@);
        }
        if node.is_kind("import_or_export") || node.is_kind("import_specification") {
            match uri_of(node, source) {
                Some(uri) => {
                    let import = DartImport {
                        uri,
                        node,
                        start_byte: node.start_byte,
                        end_byte: node.end_byte,
                    };
                    out.push(import);
                    assert(out.deep_view() =~= so_far + seq![import@]);
                },
                None => {},
            }
        }
        assert(out.deep_view() =~= so_far + import_at(node@, source@));
        i += 1;
    }
    out
}

/// Whether `kind` is the type of an expression that is reported.
pub open spec fn is_expression_kind(kind: Seq<char>) -> bool {
    ||| kind == "binary_expression"@
    ||| kind == "assignment_expression"@
    ||| kind == "conditional_expression"@
    ||| kind == "throw_expression"@
    ||| kind == "cascade_expression"@
    ||| kind == "is_expression"@
    ||| kind == "as_expression"@
    ||| kind == "postfix_expression"@
    ||| kind == "selector_expression"@
    ||| kind == "parenthesized_expression"@
    ||| kind == "list_literal"@
    ||| kind == "map_literal"@
    ||| kind == "string_literal"@
    ||| kind == "integer_literal"@
    ||| kind == "decimal_floating_point_literal"@
    ||| kind == "boolean_literal"@
    ||| kind == "null_literal"@
}

/// Whether `node` is an expression that is reported.
pub fn is_expression(node: &SyntaxNode) -> (r: bool)
    ensures
        r == is_expression_kind(node@.kind),
{
    node.is_kind("binary_expression") || node.is_kind("assignment_expression") || node.is_kind(
        "conditional_expression",
    ) || node.is_kind("throw_expression") || node.is_kind("cascade_expression") || node.is_kind(
        "is_expression",
    ) || node.is_kind("as_expression") || node.is_kind("postfix_expression") || node.is_kind(
        "selector_expression",
    ) || node.is_kind("parenthesized_expression") || node.is_kind("list_literal") || node.is_kind(
        "map_literal",
    ) || node.is_kind("string_literal") || node.is_kind("integer_literal") || node.is_kind(
        "decimal_floating_point_literal",
    ) || node.is_kind("boolean_literal") || node.is_kind("null_literal")
}

/// The expression that a node is: a node of one of the reported types
/// whose text can be read.
pub open spec fn expression_at(tree: SyntaxTree, source: Seq<char>) -> Seq<DartExpressionView> {
    if is_expression_kind(tree.kind) {
        match text_of(tree, source) {
            Some(text) => seq![
                DartExpressionView {
                    kind: tree.kind,
                    text,
                    node: tree,
                    start_byte: tree.start_byte,
                    end_byte: tree.end_byte,
                },
            ],
            None => Seq::empty(),
        }
    } else {
        Seq::empty()
    }
}

/// What finds the expressions of a source.
pub open spec fn expression_finder(source: Seq<char>) -> spec_fn(VisitView) -> Seq<
    DartExpressionView,
> {
    |v: VisitView| expression_at(v.node, source)
}

/// The expressions of a source, in the order of the text; an expression
/// comes before those that are parts of it.
pub fn extract_expressions<'a>(tree: &'a SyntaxNode, source: &str) -> (out: Vec<
    DartExpression<'a>,
>)
    ensures
        out.deep_view() == gather_all(tree@, expression_finder(source@)),
{
    let all = visits(tree);
    let mut out: Vec<DartExpression<'a>> = Vec::new();
    let mut i: usize = 0;
    assert(out.deep_view() =~= Seq::<DartExpressionView>::empty());
    while i < all.len()
        invariant
            i <= all@.len(),
            out.deep_view() == gather(all.deep_view(), expression_finder(source@), i as int),
        decreases all@.len() - i,
    {
        let node = all[i].node;
        let ghost so_far = out.deep_view();
        proof {
            lemma_node_view(*node);
            assert(all.deep_view()[i as int].node == node@);
        }
        if is_expression(node) {
            match node.text(source) {
                Some(text) => {
                    let expression = DartExpression {
                        kind: node.kind.clone(),
                        text,
                        node,
                        start_byte: node.start_byte,
                        end_byte: node.end_byte,
                    };
                    out.push(expression);
                    assert(out.deep_view() =~= so_far + seq![expression@]);
                },
                None => {},
            }
        }
        assert(out.deep_view() =~= so_far + expression_at(node@, source@));
        i += 1;
    }
    out
}

/// What is known of a declaration while its parts are read one after the
/// other.
pub ghost struct Scan {
    pub is_static: bool,
    pub is_final: bool,
    pub is_const: bool,
    pub type_annotation: Option<Seq<char>>,
    pub name: Option<Seq<char>>,
}

/// What is known of a declaration before any of its parts is read.
pub open spec fn nothing_read() -> Scan {
    Scan { is_static: false, is_final: false, is_const: false, type_annotation: None, name: None }
}

/// A field of a class.
#[derive(Debug)]
pub struct DartField<'a> {
    pub name: String,
    pub type_annotation: Option<String>,
    pub is_static: bool,
    pub is_final: bool,
    pub is_const: bool,
    pub node: &'a SyntaxNode,
    pub start_byte: usize,
    pub end_byte: usize,
}

/// A local variable.
#[derive(Debug)]
pub struct DartVariable<'a> {
    pub name: String,
    pub type_annotation: Option<String>,
    pub is_final: bool,
    pub is_const: bool,
    pub node: &'a SyntaxNode,
    pub start_byte: usize,
    pub end_byte: usize,
}

/// What a `DartField` or a `DartVariable` holds. A variable is never
/// static.
pub ghost struct DeclaredView {
    pub name: Seq<char>,
    pub type_annotation: Option<Seq<char>>,
    pub is_static: bool,
    pub is_final: bool,
    pub is_const: bool,
    pub node: SyntaxTree,
    pub start_byte: usize,
    pub end_byte: usize,
}

impl<'a> View for DartField<'a> {
    type V = DeclaredView;

    open spec fn view(&self) -> DeclaredView {
        DeclaredView {
            name: self.name@,
            type_annotation: self.type_annotation.deep_view(),
            is_static: self.is_static,
            is_final: self.is_final,
            is_const: self.is_const,
            node: self.node@,
            start_byte: self.start_byte,
            end_byte: self.end_byte,
        }
    }
}

impl<'a> DeepView for DartField<'a> {
    type V = DeclaredView;

    open spec fn deep_view(&self) -> DeclaredView {
        self@
    }
}

impl<'a> View for DartVariable<'a> {
    type V = DeclaredView;

    open spec fn view(&self) -> DeclaredView {
        DeclaredView {
            name: self.name@,
            type_annotation: self.type_annotation.deep_view(),
            is_static: false,
            is_final: self.is_final,
            is_const: self.is_const,
            node: self.node@,
            start_byte: self.start_byte,
            end_byte: self.end_byte,
        }
    }
}

impl<'a> DeepView for DartVariable<'a> {
    type V = DeclaredView;

    open spec fn deep_view(&self) -> DeclaredView {
        self@
    }
}

/// The declaration `tree` of which `scan` is known, where its name is
/// known.
pub open spec fn declared(tree: SyntaxTree, scan: Scan) -> Seq<DeclaredView> {
    match scan.name {
        Some(name) => seq![
            DeclaredView {
                name,
                type_annotation: scan.type_annotation,
                is_static: scan.is_static,
                is_final: scan.is_final,
                is_const: scan.is_const,
                node: tree,
                start_byte: tree.start_byte,
                end_byte: tree.end_byte,
            },
        ],
        None => Seq::empty(),
    }
}

/// The text of the first identifier among the children from `from` on
/// whose text can be read.
pub open spec fn first_identifier(
    children: Seq<SyntaxTree>,
    source: Seq<char>,
    from: int,
) -> Option<Seq<char>>
    decreases children.len() - from,
{
    if from < 0 || from >= children.len() {
        None
    } else if children[from].kind == "identifier"@ && text_of(children[from], source) is Some {
        text_of(children[from], source)
    } else {
        first_identifier(children, source, from + 1)
    }
}

/// Whether a node of a list of declared names can hold a name.
pub open spec fn holds_name(tree: SyntaxTree) -> bool {
    ||| tree.kind == "initialized_identifier"@
    ||| tree.kind == "static_final_declaration"@
    ||| tree.kind == "identifier"@
}

/// The name that the node `id` of a list of declared names gives, `name`
/// being known so far: that of its first identifier, else what was known,
/// else the node's own text where it is an identifier.
pub open spec fn name_from(id: SyntaxTree, source: Seq<char>, name: Option<Seq<char>>) -> Option<
    Seq<char>,
> {
    let inner = match first_identifier(id.children, source, 0) {
        Some(text) => Some(text),
        None => name,
    };
    if inner is None && id.kind == "identifier"@ {
        text_of(id, source)
    } else {
        inner
    }
}

/// The name known after the nodes from `from` on of a list of declared
/// names are read, `name` being known before. Reading stops at the first
/// node that can hold a name, once a name is known.
pub open spec fn name_in_list(
    ids: Seq<SyntaxTree>,
    source: Seq<char>,
    name: Option<Seq<char>>,
    from: int,
) -> Option<Seq<char>>
    decreases ids.len() - from,
{
    if from < 0 || from >= ids.len() {
        name
    } else if holds_name(ids[from]) {
        let after = name_from(ids[from], source, name);
        if after is Some {
            after
        } else {
            name_in_list(ids, source, after, from + 1)
        }
    } else {
        name_in_list(ids, source, name, from + 1)
    }
}

/// What is known of a field after one more part of its declaration is
/// read.
pub open spec fn field_step(scan: Scan, part: SyntaxTree, source: Seq<char>) -> Scan {
    if part.kind == "static"@ {
        Scan { is_static: true, ..scan }
    } else if part.kind == "final_builtin"@ {
        Scan { is_final: true, ..scan }
    } else if part.kind == "const_builtin"@ {
        Scan { is_const: true, ..scan }
    } else if part.kind == "type_identifier"@ {
        match text_of(part, source) {
            Some(text) => Scan { type_annotation: Some(text), ..scan },
            None => scan,
        }
    } else if part.kind == "initialized_identifier_list"@ || part.kind
        == "static_final_declaration_list"@ {
        Scan { name: name_in_list(part.children, source, scan.name, 0), ..scan }
    } else {
        scan
    }
}

/// What is known of a field after the first `upto` parts of its
/// declaration are read.
pub open spec fn field_scan(parts: Seq<SyntaxTree>, source: Seq<char>, upto: int) -> Scan
    decreases upto,
{
    if upto <= 0 {
        nothing_read()
    } else {
        field_step(field_scan(parts, source, upto - 1), parts[upto - 1], source)
    }
}

/// The fields that the first `upto` members of a class member definition
/// declare.
pub open spec fn fields_among(members: Seq<SyntaxTree>, source: Seq<char>, upto: int) -> Seq<
    DeclaredView,
>
    decreases upto,
{
    if upto <= 0 {
        Seq::empty()
    } else {
        fields_among(members, source, upto - 1) + if members[upto - 1].kind == "declaration"@ {
            declared(
                members[upto - 1],
                field_scan(
                    members[upto - 1].children,
                    source,
                    members[upto - 1].children.len() as int,
                ),
            )
        } else {
            Seq::empty()
        }
    }
}

/// The fields that a node declares: those of the declarations of a class
/// member definition.
pub open spec fn fields_at(tree: SyntaxTree, source: Seq<char>) -> Seq<DeclaredView> {
    if tree.kind == "class_member_definition"@ {
        fields_among(tree.children, source, tree.children.len() as int)
    } else {
        Seq::empty()
    }
}

/// What finds the fields of a source.
pub open spec fn field_finder(source: Seq<char>) -> spec_fn(VisitView) -> Seq<DeclaredView> {
    |v: VisitView| fields_at(v.node, source)
}

/// The text of the first identifier among the children of `node`.
pub fn identifier_of(node: &SyntaxNode, source: &str) -> (r: Option<String>)
    ensures
        r.deep_view() == first_identifier(node@.children, source@, 0),
{
    proof {
        lemma_node_view(*node);
    }
    let n = node.children.len();
    let mut i: usize = 0;
    while i < n
        invariant
            i <= n,
            n == node.children@.len(),
            n == node@.children.len(),
            forall|k: int| 0 <= k < n ==> #[trigger] node@.children[k] == node.children@[k]@,
            first_identifier(node@.children, source@, i as int) == first_identifier(
                node@.children,
                source@,
                0,
            ),
        decreases n - i,
    {
        let child = &node.children[i];
        proof {
            lemma_node_view(*child);
            assert(node@.children[i as int] == child@);
        }
        if child.is_kind("identifier") {
            match child.text(source) {
                Some(text) => {
                    return Some(text);
                },
                None => {},
            }
        }
        i += 1;
    }
    None
}

/// The name known after a list of declared names is read, `name` being
/// known before.
pub fn name_of_list(list: &SyntaxNode, source: &str, name: Option<String>) -> (r: Option<String>)
    ensures
        r.deep_view() == name_in_list(list@.children, source@, name.deep_view(), 0),
{
    proof {
        lemma_node_view(*list);
    }
    let n = list.children.len();
    let ghost first = name.deep_view();
    let mut current = name;
    let mut i: usize = 0;
    while i < n
        invariant
            i <= n,
            n == list.children@.len(),
            n == list@.children.len(),
            forall|k: int| 0 <= k < n ==> #[trigger] list@.children[k] == list.children@[k]@,
            first == name.deep_view(),
            name_in_list(list@.children, source@, current.deep_view(), i as int) == name_in_list(
                list@.children,
                source@,
                first,
                0,
            ),
        decreases n - i,
    {
        let id = &list.children[i];
        proof {
            lemma_node_view(*id);
            assert(list@.children[i as int] == id@);
        }
        let ghost known = current.deep_view();
        if id.is_kind("initialized_identifier") || id.is_kind("static_final_declaration")
            || id.is_kind("identifier") {
            assert(holds_name(id@));
            match identifier_of(id, source) {
                Some(text) => {
                    current = Some(text);
                },
                None => {},
            }
            if current.is_none() && id.is_kind("identifier") {
                current = id.text(source);
            }
            assert(current.deep_view() == name_from(id@, source@, known));
            if current.is_some() {
                return current;
            }
        } else {
            assert(!holds_name(id@));
        }
        i += 1;
    }
    current
}

/// The fields of a source, in the order of the text.
pub fn extract_fields<'a>(tree: &'a SyntaxNode, source: &str) -> (out: Vec<DartField<'a>>)
    ensures
        out.deep_view() == gather_all(tree@, field_finder(source@)),
{
    let all = visits(tree);
    let mut out: Vec<DartField<'a>> = Vec::new();
    let mut i: usize = 0;
    assert(out.deep_view() =~= Seq::<DeclaredView>::empty());
    while i < all.len()
        invariant
            i <= all@.len(),
            out.deep_view() == gather(all.deep_view(), field_finder(source@), i as int),
        decreases all@.len() - i,
    {
        let node = all[i].node;
        let ghost so_far = out.deep_view();
        proof {
            lemma_node_view(*node);
            assert(all.deep_view()[i as int].node == node@);
        }
        if node.is_kind("class_member_definition") {
            let n = node.children.len();
            let mut m: usize = 0;
            assert(out.deep_view() =~= so_far + fields_among(node@.children, source@, 0));
            while m < n
                invariant
                    m <= n,
                    n == node.children@.len(),
                    n == node@.children.len(),
                    forall|k: int|
                        0 <= k < n ==> #[trigger] node@.children[k] == node.children@[k]@,
                    out.deep_view() == so_far + fields_among(node@.children, source@, m as int),
                decreases n - m,
            {
                let member = &node.children[m];
                let ghost found_before = out.deep_view();
                proof {
                    lemma_node_view(*member);
                    assert(node@.children[m as int] == member@);
                }
                if member.is_kind("declaration") {
                    let parts = member.children.len();
                    let mut is_static = false;
                    let mut is_final = false;
                    let mut is_const = false;
                    let mut type_annotation: Option<String> = None;
                    let mut name: Option<String> = None;
                    let mut p: usize = 0;
                    while p < parts
                        invariant
                            p <= parts,
                            parts == member.children@.len(),
                            parts == member@.children.len(),
                            forall|k: int|
                                0 <= k < parts ==> #[trigger] member@.children[k]
                                    == member.children@[k]@,
                            field_scan(member@.children, source@, p as int) == (Scan {
                                is_static,
                                is_final,
                                is_const,
                                type_annotation: type_annotation.deep_view(),
                                name: name.deep_view(),
                            }),
                        decreases parts - p,
                    {
                        let part = &member.children[p];
                        proof {
                            lemma_node_view(*part);
                            assert(member@.children[p as int] == part@);
                            reveal_strlit("static");
                            reveal_strlit("final_builtin");
                            reveal_strlit("const_builtin");
                            reveal_strlit("type_identifier");
                            reveal_strlit("initialized_identifier_list");
                            reveal_strlit("static_final_declaration_list");
                            assert("static"@.len() == 6 && "final_builtin"@.len() == 13
                                && "const_builtin"@.len() == 13 && "type_identifier"@.len() == 15
                                && "initialized_identifier_list"@.len() == 27
                                && "static_final_declaration_list"@.len() == 29);
                        }
                        if part.is_kind("static") {
                            is_static = true;
                        } else if part.is_kind("final_builtin") {
                            is_final = true;
                        } else if part.is_kind("const_builtin") {
                            is_const = true;
                        } else if part.is_kind("type_identifier") {
                            match part.text(source) {
                                Some(text) => {
                                    type_annotation = Some(text);
                                },
                                None => {},
                            }
                        } else if part.is_kind("initialized_identifier_list") || part.is_kind(
                            "static_final_declaration_list",
                        ) {
                            name = name_of_list(part, source, name);
                        }
                        p += 1;
                    }
                    match name {
                        Some(name) => {
                            let field = DartField {
                                name,
                                type_annotation,
                                is_static,
                                is_final,
                                is_const,
                                node: member,
                                start_byte: member.start_byte,
                                end_byte: member.end_byte,
                            };
                            out.push(field);
                            assert(out.deep_view() =~= found_before + seq![field@]);
                        },
                        None => {},
                    }
                }
                assert(out.deep_view() =~= so_far + fields_among(node@.children, source@, m + 1));
                m += 1;
            }
        }
        assert(out.deep_view() =~= so_far + fields_at(node@, source@));
        i += 1;
    }
    out
}

} // verus!
