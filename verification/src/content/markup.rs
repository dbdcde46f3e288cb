//! The markup tree that content is read from
//!
//! The HTML parser hands out reference-counted nodes with interior mutability, which
//! a proof cannot look into. The reader therefore works on [`MarkupNode`], a plain tree
//! that holds what it reads of each node, and [`parse_document`] is the one place where
//! the parser's tree is turned into it.

use kuchiki::traits::TendrilSink;
use kuchiki::NodeData;
use kuchiki::NodeRef;
use vstd::prelude::*;
use vstd::utf8::encode_utf8;

verus! {

/// What the content reader looks at in an element: its name and two of its attributes.
#[derive(Clone, Debug, Eq, PartialEq)]
pub struct Element {
    /// Local name of the element, in lower case
    pub name: String,
    /// Value of the `class` attribute, if the element has one
    pub class: Option<String>,
    /// Value of the `href` attribute, if the element has one
    pub href: Option<String>,
}

/// A node of a parsed document
#[derive(Debug, Eq, PartialEq)]
pub enum MarkupNode {
    /// An element and its children, in document order
    Element(Element, Vec<MarkupNode>),
    /// A run of text
    Text(String),
    /// Any other node (the document itself, a comment, a doctype) and its children
    Other(Vec<MarkupNode>),
}

/// What an [`Element`] stands for.
pub struct ElementView {
    pub name: Seq<char>,
    pub class: Option<Seq<char>>,
    pub href: Option<Seq<char>>,
}

/// What a [`MarkupNode`] stands for: a finite tree over sequences of characters.
pub enum MarkupTree {
    Element(ElementView, Seq<MarkupTree>),
    Text(Seq<char>),
    Other(Seq<MarkupTree>),
}

impl DeepView for Element {
    type V = ElementView;

    open spec fn deep_view(&self) -> ElementView {
        ElementView { name: self.name@, class: self.class.deep_view(), href: self.href.deep_view() }
    }
}

/// The trees that a sequence of nodes stands for, one for one.
pub open spec fn forest_view(nodes: Seq<MarkupNode>) -> Seq<MarkupTree>
    decreases nodes,
{
    Seq::new(
        nodes.len(),
        |i: int|
            if 0 <= i < nodes.len() {
                nodes[i].deep_view()
            } else {
                arbitrary()
            },
    )
}

impl DeepView for MarkupNode {
    type V = MarkupTree;

    open spec fn deep_view(&self) -> MarkupTree
        decreases self,
    {
        match self {
            MarkupNode::Element(element, children) => MarkupTree::Element(
                element.deep_view(),
                forest_view(children@),
            ),
            MarkupNode::Text(text) => MarkupTree::Text(text@),
            MarkupNode::Other(children) => MarkupTree::Other(forest_view(children@)),
        }
    }
}

/// The longest content, in bytes, that is handed to the HTML parser.
///
/// The parser keeps text in buffers whose length and capacity are 32-bit numbers. A
/// buffer holds at most three times the bytes of the text that it is filled from (a
/// NUL is replaced by U+FFFD), and it grows to the next power of two, which the parser
/// cannot do beyond 2^31 and a machine with 32-bit addresses cannot do beyond 2^30.
/// Three times this limit stays below both.
pub const MAX_CONTENT_BYTES: usize = 0x1000_0000;

/// Whether `content` is short enough to be handed to the HTML parser.
pub fn content_fits(content: &str) -> (fits: bool)
    ensures
        fits == (encode_utf8(content@).len() <= MAX_CONTENT_BYTES),
{
    content.as_bytes().len() <= MAX_CONTENT_BYTES
}

/// The tree that the HTML parser builds from a document's text.
pub uninterp spec fn document_tree(content: Seq<char>) -> MarkupTree;

/// A node handle of the HTML parser's own tree. Nothing is known of what it holds.
#[verifier::external_type_specification]
#[verifier::external_body]
pub struct ExNodeRef(NodeRef);

/// Parses `content` as an HTML document with `kuchiki::parse_html` and returns its
/// document node as a [`MarkupNode`].
///
/// Trusted: that the parser is a function of the text alone, so that the tree it
/// builds is `document_tree(content@)`. The parser is permissive and returns a tree
/// for every input that its buffers can hold; it panics on content of more than
/// 2^32 - 1 bytes and where a buffer outgrows its capacity, which content within
/// [`MAX_CONTENT_BYTES`] cannot bring about.
#[verifier::external_body]
pub(crate) fn parse_document(content: &str) -> (root: MarkupNode)
    requires
        encode_utf8(content@).len() <= MAX_CONTENT_BYTES,
    ensures
        root.deep_view() == document_tree(content@),
{
    node_to_markup(&kuchiki::parse_html().one(content))
}

/// Copies the subtree under a `kuchiki::NodeRef` into a [`MarkupNode`]: the variant by
/// `Node::data`, the children by `NodeRef::children`, the two attributes by
/// `Attributes::get`.
///
/// Trusted: nothing is claimed of the result.
#[verifier::external_body]
fn node_to_markup(node: &NodeRef) -> MarkupNode {
    let children = node.children().map(|child| node_to_markup(&child)).collect();
    match node.data() {
        NodeData::Element(data) => {
            let name = data.name.local.to_string();
            let attributes = data.attributes.borrow();
            let class = attributes.get("class").map(String::from);
            let href = attributes.get("href").map(String::from);
            MarkupNode::Element(Element { name, class, href }, children)
        },
        NodeData::Text(text) => MarkupNode::Text(text.borrow().clone()),
        _ => MarkupNode::Other(children),
    }
}

} // verus!
