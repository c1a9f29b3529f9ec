//! A syntax tree as text, one line for each node.

use crate::text::{
    debug_string, decimal, decimal_string, first_line, first_line_of, str_debug, str_from_utf8,
};
use crate::treesitter::capture_text;
use crate::treesitter::syntax::{lemma_node_view, text_between, SyntaxNode, SyntaxTree};
use vstd::prelude::*;
use vstd::slice::slice_subrange;
use vstd::utf8::encode_utf8;

verus! {

/// What a line shows of a node's text: the first line of the text, and of
/// a line of more than 50 bytes the first 50 and three dots. `None` where
/// the fiftieth byte is inside a character.
pub open spec fn preview_of(tree: SyntaxTree, source: Seq<char>) -> Option<Seq<char>> {
    let line = first_line(capture_text(tree, source));
    if encode_utf8(line).len() > 50 {
        match text_between(line, 0, 50) {
            Some(cut) => Some(cut + "..."@),
            None => None,
        }
    } else {
        Some(line)
    }
}

/// The line for a node: the indentation, the node's type, its extent in
/// bytes, and what is shown of its text, quoted.
pub open spec fn node_line(tree: SyntaxTree, source: Seq<char>, indent: Seq<char>) -> Option<
    Seq<char>,
> {
    match preview_of(tree, source) {
        Some(preview) => Some(
            indent + tree.kind + " ["@ + decimal(tree.start_byte as nat) + ".."@ + decimal(
                tree.end_byte as nat,
            ) + "] "@ + str_debug(preview) + "\n"@,
        ),
        None => None,
    }
}

/// The lines for a node and all below it; a node's children are indented
/// by two spaces more than the node. `None` where a line cannot be
/// written.
pub open spec fn tree_text(tree: SyntaxTree, source: Seq<char>, indent: Seq<char>) -> Option<
    Seq<char>,
>
    decreases tree, 0int,
{
    match node_line(tree, source, indent) {
        Some(line) => match children_text(
            tree.children,
            source,
            indent + "  "@,
            tree.children.len() as int,
        ) {
            Some(below) => Some(line + below),
            None => None,
        },
        None => None,
    }
}

/// The lines for the first `upto` of `children` and all below them.
pub open spec fn children_text(
    children: Seq<SyntaxTree>,
    source: Seq<char>,
    indent: Seq<char>,
    upto: int,
) -> Option<Seq<char>>
    decreases children, upto,
{
    if upto <= 0 || upto > children.len() {
        Some(Seq::empty())
    } else {
        match children_text(children, source, indent, upto - 1) {
            Some(before) => match tree_text(children[upto - 1], source, indent) {
                Some(last) => Some(before + last),
                None => None,
            },
            None => None,
        }
    }
}

/// What a line shows of the text of `node`.
pub fn preview(node: &SyntaxNode, source: &str) -> (r: Option<String>)
    ensures
        r.deep_view() == preview_of(node@, source@),
{
    let text = match node.text(source) {
        Some(text) => text,
        None => "<error>".to_owned(),
    };
    let line = first_line_of(text.as_str());
    let bytes = line.as_str().as_bytes();
    if bytes.len() > 50 {
        match str_from_utf8(slice_subrange(bytes, 0, 50)) {
            Some(cut) => {
                let mut shown = cut.to_owned();
                shown.append("...");
                Some(shown)
            },
            None => None,
        }
    } else {
        Some(line)
    }
}

/// Appends the lines for `node` and all below it to `out`. Returns
/// whether all lines could be written; where not, `out` holds the lines up
/// to the one that could not.
pub fn render_node(node: &SyntaxNode, source: &str, indent: &str, out: &mut String) -> (done: bool)
    ensures
        done == tree_text(node@, source@, indent@) is Some,
        done ==> final(out)@ == old(out)@ + tree_text(node@, source@, indent@)->0,
    decreases node,
{
    let ghost before = out@;
    let shown = match preview(node, source) {
        Some(shown) => shown,
        None => {
            return false;
        },
    };
    out.append(indent);
    out.append(node.kind.as_str());
    out.append(" [");
    out.append(decimal_string(node.start_byte).as_str());
    out.append("..");
    out.append(decimal_string(node.end_byte).as_str());
    out.append("] ");
    out.append(debug_string(shown.as_str()).as_str());
    out.append("\n");
    proof {
        lemma_node_view(*node);
    }
    let ghost line = node_line(node@, source@, indent@)->0;
    assert(out@ =~= before + line);
    let mut deeper = indent.to_owned();
    deeper.append("  ");
    let n = node.children.len();
    let mut i: usize = 0;
    assert(out@ =~= before + line + children_text(node@.children, source@, deeper@, 0)->0);
    while i < n
        invariant
            i <= n,
            n == node.children@.len(),
            n == node@.children.len(),
            deeper@ == indent@ + "  "@,
            forall|k: int| 0 <= k < n ==> #[trigger] node@.children[k] == node.children@[k]@,
            children_text(node@.children, source@, deeper@, i as int) is Some,
            out@ == before + line + children_text(node@.children, source@, deeper@, i as int)->0,
        decreases n - i,
    {
        assert(node.children@[i as int]@ == node@.children[i as int]);
        if !render_node(&node.children[i], source, deeper.as_str(), out) {
            assert(children_text(node@.children, source@, deeper@, i + 1) is None);
            proof {
                lemma_children_text_stays_none(
                    node@.children,
                    source@,
                    deeper@,
                    i + 1,
                    n as int,
                );
                assert(children_text(node@.children, source@, indent@ + "  "@, n as int) is None);
                assert(tree_text(node@, source@, indent@) is None);
            }
            return false;
        }
        assert(out@ =~= before + line + children_text(
            node@.children,
            source@,
            deeper@,
            i + 1,
        )->0);
        i += 1;
    }
    assert(out@ =~= before + tree_text(node@, source@, indent@)->0);
    true
}

/// Once a line cannot be written, the lines after it cannot either.
pub proof fn lemma_children_text_stays_none(
    children: Seq<SyntaxTree>,
    source: Seq<char>,
    indent: Seq<char>,
    from: int,
    upto: int,
)
    requires
        0 < from <= upto <= children.len(),
        children_text(children, source, indent, from) is None,
    ensures
        children_text(children, source, indent, upto) is None,
    decreases upto - from,
{
    if from < upto {
        lemma_children_text_stays_none(children, source, indent, from, upto - 1);
    }
}

/// The lines for a tree, its root not indented; `None` where a line cannot
/// be written because its text would be cut inside a character.
pub fn render_tree(tree: &SyntaxNode, source: &str) -> (r: Option<String>)
    ensures
        r.deep_view() == tree_text(tree@, source@, Seq::empty()),
{
    let mut out = String::new();
    let indent = String::new();
    if render_node(tree, source, indent.as_str(), &mut out) {
        assert(Seq::<char>::empty() + tree_text(tree@, source@, Seq::empty())->0 =~= tree_text(
            tree@,
            source@,
            Seq::empty(),
        )->0);
        Some(out)
    } else {
        None
    }
}

} // verus!
