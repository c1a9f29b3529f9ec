//! What a syntax tree of a Dart source tells of variables and types.

use crate::treesitter::extract::{
    declared, gather, gather_all, nothing_read, visits, DartVariable, DeclaredView, Scan, Visit,
    VisitView,
};
use crate::treesitter::syntax::{lemma_node_view, text_of, SyntaxNode, SyntaxTree};
use vstd::prelude::*;

verus! {

/// What is known of a variable after one more part of its definition is
/// read. The first identifier whose text can be read is the name.
pub open spec fn variable_step(scan: Scan, part: SyntaxTree, source: Seq<char>) -> Scan {
    if part.kind == "final_builtin"@ {
        Scan { is_final: true, ..scan }
    } else if part.kind == "const_builtin"@ {
        Scan { is_const: true, ..scan }
    } else if part.kind == "type_identifier"@ || part.kind == "inferred_type"@ {
        match text_of(part, source) {
            Some(text) => Scan { type_annotation: Some(text), ..scan },
            None => scan,
        }
    } else if part.kind == "identifier"@ {
        if scan.name is None {
            Scan { name: text_of(part, source), ..scan }
        } else {
            scan
        }
    } else {
        scan
    }
}

/// What is known of a variable after the first `upto` parts of its
/// definition are read.
pub open spec fn variable_scan(parts: Seq<SyntaxTree>, source: Seq<char>, upto: int) -> Scan
    decreases upto,
{
    if upto <= 0 {
        nothing_read()
    } else {
        variable_step(variable_scan(parts, source, upto - 1), parts[upto - 1], source)
    }
}

/// The variables that the first `upto` members of a declaration of local
/// variables define.
pub open spec fn variables_among(members: Seq<SyntaxTree>, source: Seq<char>, upto: int) -> Seq<
    DeclaredView,
>
    decreases upto,
{
    if upto <= 0 {
        Seq::empty()
    } else {
        variables_among(members, source, upto - 1) + if members[upto - 1].kind
            == "initialized_variable_definition"@ {
            declared(
                members[upto - 1],
                variable_scan(
                    members[upto - 1].children,
                    source,
                    members[upto - 1].children.len() as int,
                ),
            )
        } else {
            Seq::empty()
        }
    }
}

/// The variables that a node declares: those of the definitions of a
/// declaration of local variables.
pub open spec fn variables_at(tree: SyntaxTree, source: Seq<char>) -> Seq<DeclaredView> {
    if tree.kind == "local_variable_declaration"@ {
        variables_among(tree.children, source, tree.children.len() as int)
    } else {
        Seq::empty()
    }
}

/// What finds the local variables of a source.
pub open spec fn variable_finder(source: Seq<char>) -> spec_fn(VisitView) -> Seq<DeclaredView> {
    |v: VisitView| variables_at(v.node, source)
}

/// The local variables of a source, in the order of the text.
pub fn extract_variables<'a>(tree: &'a SyntaxNode, source: &str) -> (out: Vec<DartVariable<'a>>)
    ensures
        out.deep_view() == gather_all(tree@, variable_finder(source@)),
{
    let all = visits(tree);
    let mut out: Vec<DartVariable<'a>> = Vec::new();
    let mut i: usize = 0;
    assert(out.deep_view() =~= Seq::<DeclaredView>::empty());
    while i < all.len()
        invariant
            i <= all@.len(),
            out.deep_view() == gather(all.deep_view(), variable_finder(source@), i as int),
        decreases all@.len() - i,
    {
        let node = all[i].node;
        let ghost so_far = out.deep_view();
        proof {
            lemma_node_view(*node);
            assert(all.deep_view()[i as int].node == node@);
        }
        if node.is_kind("local_variable_declaration") {
            let n = node.children.len();
            let mut m: usize = 0;
            assert(out.deep_view() =~= so_far + variables_among(node@.children, source@, 0));
            while m < n
                invariant
                    m <= n,
                    n == node.children@.len(),
                    n == node@.children.len(),
                    forall|k: int|
                        0 <= k < n ==> #[trigger] node@.children[k] == node.children@[k]@,
                    out.deep_view() == so_far + variables_among(node@.children, source@, m as int),
                decreases n - m,
            {
                let member = &node.children[m];
                let ghost found_before = out.deep_view();
                proof {
                    lemma_node_view(*member);
                    assert(node@.children[m as int] == member@);
                }
                if member.is_kind("initialized_variable_definition") {
                    let parts = member.children.len();
                    let mut is_final = false;
                    let mut is_const = false;
                    let mut type_annotation: Option<String> = None;
                    let mut name: Option<String> = None;
                    let mut p: usize = 0;
                    while p < parts
                        invariant
                            p <= parts,
                            parts == member.children@.len(),
                            parts == member@.children.len(),
                            forall|k: int|
                                0 <= k < parts ==> #[trigger] member@.children[k]
                                    == member.children@[k]@,
                            variable_scan(member@.children, source@, p as int) == (Scan {
                                is_static: false,
                                is_final,
                                is_const,
                                type_annotation: type_annotation.deep_view(),
                                name: name.deep_view(),
                            }),
                        decreases parts - p,
                    {
                        let part = &member.children[p];
                        proof {
                            lemma_node_view(*part);
                            assert(member@.children[p as int] == part@);
                            reveal_strlit("final_builtin");
                            reveal_strlit("const_builtin");
                            reveal_strlit("type_identifier");
                            reveal_strlit("inferred_type");
                            reveal_strlit("identifier");
                            assert("final_builtin"@[0] == 'f' && "const_builtin"@[0] == 'c'
                                && "type_identifier"@[0] == 't' && "inferred_type"@[1] == 'n'
                                && "identifier"@[1] == 'd' && "identifier"@[0] == 'i'
                                && "inferred_type"@[0] == 'i');
                        }
                        if part.is_kind("final_builtin") {
                            is_final = true;
                        } else if part.is_kind("const_builtin") {
                            is_const = true;
                        } else if part.is_kind("type_identifier") || part.is_kind("inferred_type") {
                            match part.text(source) {
                                Some(text) => {
                                    type_annotation = Some(text);
                                },
                                None => {},
                            }
                        } else if part.is_kind("identifier") {
                            if name.is_none() {
                                name = part.text(source);
                            }
                        }
                        p += 1;
                    }
                    match name {
                        Some(name) => {
                            let variable = DartVariable {
                                name,
                                type_annotation,
                                is_final,
                                is_const,
                                node: member,
                                start_byte: member.start_byte,
                                end_byte: member.end_byte,
                            };
                            out.push(variable);
                            assert(out.deep_view() =~= found_before + seq![variable@]);
                        },
                        None => {},
                    }
                }
                assert(out.deep_view() =~= so_far + variables_among(
                    node@.children,
                    source@,
                    m + 1,
                ));
                m += 1;
            }
        }
        assert(out.deep_view() =~= so_far + variables_at(node@, source@));
        i += 1;
    }
    out
}

/// A use of a type.
#[derive(Debug)]
pub struct DartTypeAnnotation<'a> {
    pub name: String,
    pub is_nullable: bool,
    pub type_parameters: Vec<String>,
    pub node: &'a SyntaxNode,
    pub start_byte: usize,
    pub end_byte: usize,
}

/// What a `DartTypeAnnotation` holds.
pub ghost struct TypeAnnotationView {
    pub name: Seq<char>,
    pub is_nullable: bool,
    pub type_parameters: Seq<Seq<char>>,
    pub node: SyntaxTree,
    pub start_byte: usize,
    pub end_byte: usize,
}

impl<'a> View for DartTypeAnnotation<'a> {
    type V = TypeAnnotationView;

    open spec fn view(&self) -> TypeAnnotationView {
        TypeAnnotationView {
            name: self.name@,
            is_nullable: self.is_nullable,
            type_parameters: self.type_parameters.deep_view(),
            node: self.node@,
            start_byte: self.start_byte,
            end_byte: self.end_byte,
        }
    }
}

impl<'a> DeepView for DartTypeAnnotation<'a> {
    type V = TypeAnnotationView;

    open spec fn deep_view(&self) -> TypeAnnotationView {
        self@
    }
}

/// The node that follows a node among the children of the node above it.
pub open spec fn next_sibling(v: VisitView) -> Option<SyntaxTree> {
    match v.parent {
        Some(p) => if 0 <= v.index + 1 < p.children.len() {
            Some(p.children[v.index + 1])
        } else {
            None
        },
        None => None,
    }
}

/// Whether the type at a node is nullable: a question mark follows it.
pub open spec fn is_nullable_at(v: VisitView) -> bool {
    next_sibling(v) matches Some(s) && s.kind == "?"@
}

/// The texts of the type identifiers among the first `upto` of
/// `children`.
pub open spec fn type_identifiers(children: Seq<SyntaxTree>, source: Seq<char>, upto: int) -> Seq<
    Seq<char>,
>
    decreases upto,
{
    if upto <= 0 {
        Seq::empty()
    } else {
        let before = type_identifiers(children, source, upto - 1);
        if children[upto - 1].kind == "type_identifier"@ {
            match text_of(children[upto - 1], source) {
                Some(text) => before.push(text),
                None => before,
            }
        } else {
            before
        }
    }
}

/// The type arguments among which a node stands: the type identifiers of
/// the list of type arguments that the node is in.
pub open spec fn type_parameters_at(v: VisitView, source: Seq<char>) -> Seq<Seq<char>> {
    match v.parent {
        Some(p) => if p.kind == "type_arguments"@ {
            type_identifiers(p.children, source, p.children.len() as int)
        } else {
            Seq::empty()
        },
        None => Seq::empty(),
    }
}

/// The use of a type that a node is: a type identifier or a scoped
/// identifier whose text can be read.
pub open spec fn type_annotation_at(v: VisitView, source: Seq<char>) -> Seq<TypeAnnotationView> {
    if v.node.kind == "type_identifier"@ || v.node.kind == "scoped_identifier"@ {
        match text_of(v.node, source) {
            Some(name) => seq![
                TypeAnnotationView {
                    name,
                    is_nullable: is_nullable_at(v),
                    type_parameters: type_parameters_at(v, source),
                    node: v.node,
                    start_byte: v.node.start_byte,
                    end_byte: v.node.end_byte,
                },
            ],
            None => Seq::empty(),
        }
    } else {
        Seq::empty()
    }
}

/// What finds the uses of types in a source.
pub open spec fn type_annotation_finder(source: Seq<char>) -> spec_fn(VisitView) -> Seq<
    TypeAnnotationView,
> {
    |v: VisitView| type_annotation_at(v, source)
}

/// The texts of the type identifiers among the children of `node`.
pub fn type_identifiers_of(node: &SyntaxNode, source: &str) -> (out: Vec<String>)
    ensures
        out.deep_view() == type_identifiers(
            node@.children,
            source@,
            node@.children.len() as int,
        ),
{
    proof {
        lemma_node_view(*node);
    }
    let n = node.children.len();
    let mut out: Vec<String> = Vec::new();
    let mut i: usize = 0;
    assert(out.deep_view() =~= Seq::<Seq<char>>::empty());
    while i < n
        invariant
            i <= n,
            n == node.children@.len(),
            n == node@.children.len(),
            forall|k: int| 0 <= k < n ==> #[trigger] node@.children[k] == node.children@[k]@,
            out.deep_view() == type_identifiers(node@.children, source@, i as int),
        decreases n - i,
    {
        let child = &node.children[i];
        proof {
            lemma_node_view(*child);
            assert(node@.children[i as int] == child@);
        }
        if child.is_kind("type_identifier") {
            match child.text(source) {
                Some(text) => {
                    let ghost so_far = out.deep_view();
                    let ghost added = text@;
                    out.push(text);
                    assert(out.deep_view() =~= so_far.push(added));
                },
                None => {},
            }
        }
        i += 1;
    }
    out
}

/// Whether a question mark follows the node of a visit.
pub fn followed_by_question_mark(visit: &Visit) -> (r: bool)
    ensures
        r == is_nullable_at(visit@),
{
    match visit.parent {
        Some(p) => {
            proof {
                lemma_node_view(*p);
            }
            if visit.index < p.children.len() && visit.index + 1 < p.children.len() {
                let sibling = &p.children[visit.index + 1];
                proof {
                    lemma_node_view(*sibling);
                    assert(p@.children[visit.index + 1] == sibling@);
                }
                sibling.is_kind("?")
            } else {
                false
            }
        },
        None => false,
    }
}

/// The uses of types in a source, in the order of the text.
pub fn extract_type_annotations<'a>(tree: &'a SyntaxNode, source: &str) -> (out: Vec<
    DartTypeAnnotation<'a>,
>)
    ensures
        out.deep_view() == gather_all(tree@, type_annotation_finder(source@)),
{
    let all = visits(tree);
    let mut out: Vec<DartTypeAnnotation<'a>> = Vec::new();
    let mut i: usize = 0;
    assert(out.deep_view() =~= Seq::<TypeAnnotationView>::empty());
    while i < all.len()
        invariant
            i <= all@.len(),
            out.deep_view() == gather(all.deep_view(), type_annotation_finder(source@), i as int),
        decreases all@.len() - i,
    {
        let visit = &all[i];
        let node = visit.node;
        let ghost so_far = out.deep_view();
        proof {
            lemma_node_view(*node);
            assert(all.deep_view()[i as int] == visit@);
        }
        if node.is_kind("type_identifier") || node.is_kind("scoped_identifier") {
            match node.text(source) {
                Some(name) => {
                    let is_nullable = followed_by_question_mark(visit);
                    let type_parameters = match visit.parent {
                        Some(p) => {
                            proof {
                                lemma_node_view(*p);
                            }
                            if p.is_kind("type_arguments") {
                                type_identifiers_of(p, source)
                            } else {
                                Vec::new()
                            }
                        },
                        None => Vec::new(),
                    };
                    assert(type_parameters.deep_view() =~= type_parameters_at(visit@, source@));
                    let annotation = DartTypeAnnotation {
                        name,
                        is_nullable,
                        type_parameters,
                        node,
                        start_byte: node.start_byte,
                        end_byte: node.end_byte,
                    };
                    out.push(annotation);
                    assert(out.deep_view() =~= so_far + seq![annotation@]);
                },
                None => {},
            }
        }
        assert(out.deep_view() =~= so_far + type_annotation_at(visit@, source@));
        i += 1;
    }
    out
}

/// A type parameter of a generic declaration.
#[derive(Debug)]
pub struct DartTypeParameter<'a> {
    pub name: String,
    pub bound: Option<String>,
    pub node: &'a SyntaxNode,
    pub start_byte: usize,
    pub end_byte: usize,
}

/// What a `DartTypeParameter` holds.
pub ghost struct TypeParameterView {
    pub name: Seq<char>,
    pub bound: Option<Seq<char>>,
    pub node: SyntaxTree,
    pub start_byte: usize,
    pub end_byte: usize,
}

impl<'a> View for DartTypeParameter<'a> {
    type V = TypeParameterView;

    open spec fn view(&self) -> TypeParameterView {
        TypeParameterView {
            name: self.name@,
            bound: self.bound.deep_view(),
            node: self.node@,
            start_byte: self.start_byte,
            end_byte: self.end_byte,
        }
    }
}

impl<'a> DeepView for DartTypeParameter<'a> {
    type V = TypeParameterView;

    open spec fn deep_view(&self) -> TypeParameterView {
        self@
    }
}

/// The name and the bound of a type parameter, as far as they are known.
pub ghost struct ParameterScan {
    pub name: Option<Seq<char>>,
    pub bound: Option<Seq<char>>,
}

/// What is known of a type parameter after one more of its parts is read:
/// the first type identifier whose text can be read is the name, the last
/// one after it the bound.
pub open spec fn parameter_step(
    scan: ParameterScan,
    part: SyntaxTree,
    source: Seq<char>,
) -> ParameterScan {
    if part.kind == "type_identifier"@ {
        if scan.name is None {
            ParameterScan { name: text_of(part, source), ..scan }
        } else {
            match text_of(part, source) {
                Some(text) => ParameterScan { bound: Some(text), ..scan },
                None => scan,
            }
        }
    } else {
        scan
    }
}

/// What is known of a type parameter after its first `upto` parts are
/// read.
pub open spec fn parameter_scan(
    parts: Seq<SyntaxTree>,
    source: Seq<char>,
    upto: int,
) -> ParameterScan
    decreases upto,
{
    if upto <= 0 {
        ParameterScan { name: None, bound: None }
    } else {
        parameter_step(parameter_scan(parts, source, upto - 1), parts[upto - 1], source)
    }
}

/// The type parameter that a node is, where its name is known.
pub open spec fn type_parameter_at(tree: SyntaxTree, source: Seq<char>) -> Seq<TypeParameterView> {
    if tree.kind == "type_parameter"@ {
        let scan = parameter_scan(tree.children, source, tree.children.len() as int);
        match scan.name {
            Some(name) => seq![
                TypeParameterView {
                    name,
                    bound: scan.bound,
                    node: tree,
                    start_byte: tree.start_byte,
                    end_byte: tree.end_byte,
                },
            ],
            None => Seq::empty(),
        }
    } else {
        Seq::empty()
    }
}

/// What finds the type parameters of a source.
pub open spec fn type_parameter_finder(source: Seq<char>) -> spec_fn(VisitView) -> Seq<
    TypeParameterView,
> {
    |v: VisitView| type_parameter_at(v.node, source)
}

/// The type parameters of a source, in the order of the text.
pub fn extract_type_parameters<'a>(tree: &'a SyntaxNode, source: &str) -> (out: Vec<
    DartTypeParameter<'a>,
>)
    ensures
        out.deep_view() == gather_all(tree@, type_parameter_finder(source@)),
{
    let all = visits(tree);
    let mut out: Vec<DartTypeParameter<'a>> = Vec::new();
    let mut i: usize = 0;
    assert(out.deep_view() =~= Seq::<TypeParameterView>::empty());
    while i < all.len()
        invariant
            i <= all@.len(),
            out.deep_view() == gather(all.deep_view(), type_parameter_finder(source@), i as int),
        decreases all@.len() - i,
    {
        let node = all[i].node;
        let ghost so_far = out.deep_view();
        proof {
            lemma_node_view(*node);
            assert(all.deep_view()[i as int].node == node@);
        }
        if node.is_kind("type_parameter") {
            let parts = node.children.len();
            let mut name: Option<String> = None;
            let mut bound: Option<String> = None;
            let mut p: usize = 0;
            while p < parts
                invariant
                    p <= parts,
                    parts == node.children@.len(),
                    parts == node@.children.len(),
                    forall|k: int|
                        0 <= k < parts ==> #[trigger] node@.children[k] == node.children@[k]@,
                    parameter_scan(node@.children, source@, p as int) == (ParameterScan {
                        name: name.deep_view(),
                        bound: bound.deep_view(),
                    }),
                decreases parts - p,
            {
                let part = &node.children[p];
                proof {
                    lemma_node_view(*part);
                    assert(node@.children[p as int] == part@);
                }
                if part.is_kind("type_identifier") {
                    if name.is_none() {
                        name = part.text(source);
                    } else {
                        match part.text(source) {
                            Some(text) => {
                                bound = Some(text);
                            },
                            None => {},
                        }
                    }
                }
                p += 1;
            }
            match name {
                Some(name) => {
                    let parameter = DartTypeParameter {
                        name,
                        bound,
                        node,
                        start_byte: node.start_byte,
                        end_byte: node.end_byte,
                    };
                    out.push(parameter);
                    assert(out.deep_view() =~= so_far + seq![parameter@]);
                },
                None => {},
            }
        }
        assert(out.deep_view() =~= so_far + type_parameter_at(node@, source@));
        i += 1;
    }
    out
}

} // verus!
