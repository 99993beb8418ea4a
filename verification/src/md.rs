//! The part of a markdown syntax tree that the layout compiler reads: node
//! kinds with the few attributes it looks at (heading depth, link target,
//! literal text) and the children of every parent node.
use vstd::prelude::*;
use markdown::mdast::Node;

verus! {

/// The kind of a markdown node, with the attributes the compiler reads.
#[derive(Debug)]
pub enum MdKind {
    Root,
    Heading(u8),
    List,
    ListItem,
    Paragraph,
    Emphasis,
    Link(String),
    Text(String),
    InlineCode(String),
    /// Any other node (block quote, strong, break, image, ...).
    Other,
}

/// The model of an [`MdKind`].
pub enum MdKindV {
    Root,
    Heading(u8),
    List,
    ListItem,
    Paragraph,
    Emphasis,
    Link(Seq<char>),
    Text(Seq<char>),
    InlineCode(Seq<char>),
    Other,
}

impl MdKind {
    pub open spec fn model(self) -> MdKindV {
        match self {
            MdKind::Root => MdKindV::Root,
            MdKind::Heading(d) => MdKindV::Heading(d),
            MdKind::List => MdKindV::List,
            MdKind::ListItem => MdKindV::ListItem,
            MdKind::Paragraph => MdKindV::Paragraph,
            MdKind::Emphasis => MdKindV::Emphasis,
            MdKind::Link(u) => MdKindV::Link(u@),
            MdKind::Text(t) => MdKindV::Text(t@),
            MdKind::InlineCode(t) => MdKindV::InlineCode(t@),
            MdKind::Other => MdKindV::Other,
        }
    }
}

/// A markdown node: its kind and its children (empty for a node that is not
/// a parent).
#[derive(Debug)]
pub struct MdNode {
    pub kind: MdKind,
    pub children: Vec<MdNode>,
}

/// The model of an [`MdNode`].
pub struct MdTree {
    pub kind: MdKindV,
    pub children: Seq<MdTree>,
}

impl MdNode {
    pub open spec fn model(self) -> MdTree
        decreases self,
    {
        MdTree {
            kind: self.kind.model(),
            children: Seq::new(
                self.children@.len(),
                |i: int|
                    if 0 <= i < self.children@.len() {
                        self.children@[i].model()
                    } else {
                        MdTree { kind: MdKindV::Other, children: Seq::empty() }
                    },
            ),
        }
    }
}

/// The models of a sequence of nodes.
pub open spec fn trees(v: Seq<MdNode>) -> Seq<MdTree> {
    Seq::new(v.len(), |i: int| v[i].model())
}

/// A markdown syntax-tree node of the `markdown` crate, carried through
/// opaquely.
#[verifier::external_type_specification]
#[verifier::external_body]
pub struct ExMdastNode(Node);

/// The library's copy ([`MdTree`]) of the document tree that
/// `markdown::to_mdast` builds from `source` with the default (CommonMark)
/// options: the node kinds kept here, every other node as `Other`; `None`
/// where the parser reports an error.
pub uninterp spec fn markdown_document(source: Seq<char>) -> Option<MdTree>;

/// The head of a markdown node (`markdown::mdast::Node`): its variant, with
/// the attributes kept here copied out. Nothing is stated of the result here:
/// the node is opaque to the proofs, and what the copied tree holds is what
/// [`parse_markdown`] claims.
#[verifier::external_body]
fn node_head(node: &Node) -> (k: MdKind)
{
    match node {
        Node::Root(_) => MdKind::Root,
        Node::Heading(h) => MdKind::Heading(h.depth),
        Node::List(_) => MdKind::List,
        Node::ListItem(_) => MdKind::ListItem,
        Node::Paragraph(_) => MdKind::Paragraph,
        Node::Emphasis(_) => MdKind::Emphasis,
        Node::Link(l) => MdKind::Link(l.url.clone()),
        Node::Text(t) => MdKind::Text(t.value.clone()),
        Node::InlineCode(c) => MdKind::InlineCode(c.value.clone()),
        _ => MdKind::Other,
    }
}

/// The children of a markdown node (`markdown::mdast::Node::children`), empty
/// where the node is not a parent. Nothing is stated of the result here (see
/// [`node_head`]).
#[verifier::external_body]
fn node_children(node: &Node) -> (c: &[Node])
{
    match node.children() {
        Some(children) => children.as_slice(),
        None => &[],
    }
}

/// The tree `t` goes at most `d` levels below its root.
pub open spec fn within_depth(t: MdTree, d: nat) -> bool
    decreases d,
{
    if d == 0 {
        t.children.len() == 0
    } else {
        forall|i: int| 0 <= i < t.children.len() ==> within_depth(#[trigger] t.children[i], (d - 1) as nat)
    }
}

/// Copies a `markdown` syntax tree into an [`MdNode`] tree, down to
/// `depth` levels: the copy goes no deeper.
fn md_from_node(node: &Node, depth: u64) -> (r: MdNode)
    ensures
        within_depth(r.model(), depth as nat),
    decreases depth,
{
    let kind = node_head(node);
    let mut children: Vec<MdNode> = Vec::new();
    if depth > 0 {
        let kids = node_children(node);
        let mut i: usize = 0;
        while i < kids.len()
            invariant
                i <= kids@.len(),
                depth > 0,
                forall|j: int| 0 <= j < children@.len() ==> within_depth(#[trigger] children@[j].model(), (depth - 1) as nat),
            decreases kids@.len() - i,
        {
            let c = md_from_node(&kids[i], depth - 1);
            children.push(c);
            i = i + 1;
        }
    }
    let r = MdNode { kind, children };
    assert forall|j: int| 0 <= j < r.model().children.len() implies within_depth(
        #[trigger] r.model().children[j],
        (depth - 1) as nat,
    ) by {
        assert(r.model().children[j] == r.children@[j].model());
    }
    r
}

/// Parses `source` as CommonMark with `markdown::to_mdast` and the default
/// options, and copies the tree with [`md_from_node`]; `None` where the
/// parser reports an error. The contract claims that the copied tree is
/// [`markdown_document`] of the source, that is, that the parse depends on
/// the source alone.
#[verifier::external_body]
pub(crate) fn parse_markdown(source: &str) -> (r: Option<MdNode>)
    ensures
        match r {
            Some(n) => markdown_document(source@) == Some(n.model()),
            None => markdown_document(source@) is None,
        },
{
    match markdown::to_mdast(source, &markdown::ParseOptions::default()) {
        Ok(node) => Some(md_from_node(&node, u64::MAX)),
        Err(_) => None,
    }
}

} // verus!
