//! Parse content to a higher level representation
//!
//! This module offers [`parse_content`], that parse a Mastodon content
//! to a high level representation.
//!
//! This representation is the following:
//!
//! - A content is a list of paragraphs
//! - A paragraph is a list of [`ParagraphNode`]
//! - A paragraph node can be a link, a text or a new line
//! - A link (link, mention or hashtag) contain a list of [`LinkNode`]
//! - A link node can be a text or a new line

use super::markup::document_tree;
use super::markup::MAX_CONTENT_BYTES;
use super::markup::MarkupNode;
use super::markup::MarkupTree;
use super::visit::content_events;
use super::visit::events_of;
use super::visit::Parser;
use super::visit::Visit;
use super::visit::VisitEvent;
use super::visit::VisitEventView;
use super::LinkKind;
use super::LinkKindView;
use vstd::prelude::*;
use vstd::utf8::encode_utf8;

verus! {

/// A paragraph node
///
/// This node represent every element that
/// can appear inside a paragraph
#[derive(Clone, Debug, Eq, PartialEq)]
#[non_exhaustive]
pub enum ParagraphNode {
    /// A link
    Link(LinkKind, Vec<LinkNode>),
    /// A text
    Text(String),
    /// A new line
    NewLine,
}

/// A link node
///
/// This node represent every element that
/// can appear inside a link
#[derive(Clone, Debug, Eq, PartialEq)]
#[non_exhaustive]
pub enum LinkNode {
    /// A text
    Text(String),
    /// A new line
    NewLine,
}

/// What a [`LinkNode`] stands for.
pub enum LinkNodeView {
    Text(Seq<char>),
    NewLine,
}

/// What a [`ParagraphNode`] stands for.
pub enum ParagraphNodeView {
    Link(LinkKindView, Seq<LinkNodeView>),
    Text(Seq<char>),
    NewLine,
}

impl DeepView for LinkNode {
    type V = LinkNodeView;

    open spec fn deep_view(&self) -> LinkNodeView {
        match self {
            LinkNode::Text(text) => LinkNodeView::Text(text@),
            LinkNode::NewLine => LinkNodeView::NewLine,
        }
    }
}

impl DeepView for ParagraphNode {
    type V = ParagraphNodeView;

    open spec fn deep_view(&self) -> ParagraphNodeView {
        match self {
            ParagraphNode::Link(link, children) => ParagraphNodeView::Link(
                link.deep_view(),
                children.deep_view(),
            ),
            ParagraphNode::Text(text) => ParagraphNodeView::Text(text@),
            ParagraphNode::NewLine => ParagraphNodeView::NewLine,
        }
    }
}

/// One less than `count`, and zero for zero.
pub open spec fn one_less(count: nat) -> nat {
    if count > 0 {
        (count - 1) as nat
    } else {
        0
    }
}

/// Where the building of paragraphs stands.
pub struct Building {
    /// The paragraphs that are complete
    pub paragraphs: Seq<Seq<ParagraphNodeView>>,
    /// How many paragraphs are open, one inside the other
    pub paragraph_count: nat,
    /// How many links are open, one inside the other
    pub link_count: nat,
    /// What the paragraph that is open holds so far
    pub current_paragraph: Seq<ParagraphNodeView>,
    /// What the link that is open holds so far
    pub current_link: Seq<LinkNodeView>,
}

impl Building {
    /// Nothing built, nothing open.
    pub open spec fn start() -> Building {
        Building {
            paragraphs: Seq::empty(),
            paragraph_count: 0,
            link_count: 0,
            current_paragraph: Seq::empty(),
            current_link: Seq::empty(),
        }
    }

    /// A run of text: dropped outside of a paragraph, added to the open link inside of
    /// one, and to the open paragraph otherwise.
    pub open spec fn text(self, text: Seq<char>) -> Building {
        if self.paragraph_count == 0 {
            self
        } else if self.link_count > 0 {
            Building { current_link: self.current_link.push(LinkNodeView::Text(text)), ..self }
        } else {
            Building {
                current_paragraph: self.current_paragraph.push(ParagraphNodeView::Text(text)),
                ..self
            }
        }
    }

    /// A line break: dropped, or added, as a run of text is.
    pub open spec fn new_line(self) -> Building {
        if self.paragraph_count == 0 {
            self
        } else if self.link_count > 0 {
            Building { current_link: self.current_link.push(LinkNodeView::NewLine), ..self }
        } else {
            Building {
                current_paragraph: self.current_paragraph.push(ParagraphNodeView::NewLine),
                ..self
            }
        }
    }

    /// A paragraph begins: one more is open.
    pub open spec fn begin_paragraph(self) -> Building {
        Building { paragraph_count: self.paragraph_count + 1, ..self }
    }

    /// A paragraph ends: one less is open, and where none is open any more, what the
    /// open paragraph held is one more complete paragraph.
    pub open spec fn end_paragraph(self) -> Building {
        if one_less(self.paragraph_count) == 0 {
            Building {
                paragraphs: self.paragraphs.push(self.current_paragraph),
                paragraph_count: 0,
                current_paragraph: Seq::empty(),
                ..self
            }
        } else {
            Building { paragraph_count: one_less(self.paragraph_count), ..self }
        }
    }

    /// A link begins: one more is open.
    pub open spec fn begin_link(self) -> Building {
        Building { link_count: self.link_count + 1, ..self }
    }

    /// A link ends: one less is open, and where none is open any more, what the open
    /// link held is added to the open paragraph as a link of kind `link`.
    pub open spec fn end_link(self, link: LinkKindView) -> Building {
        if one_less(self.link_count) == 0 {
            Building {
                link_count: 0,
                current_paragraph: self.current_paragraph.push(
                    ParagraphNodeView::Link(link, self.current_link),
                ),
                current_link: Seq::empty(),
                ..self
            }
        } else {
            Building { link_count: one_less(self.link_count), ..self }
        }
    }

    /// The building after one more notification.
    pub open spec fn notified(self, event: VisitEventView) -> Building {
        match event {
            VisitEventView::Text(text) => self.text(text),
            VisitEventView::NewLine => self.new_line(),
            VisitEventView::BeginParagraph => self.begin_paragraph(),
            VisitEventView::EndParagraph => self.end_paragraph(),
            VisitEventView::BeginLink(_) => self.begin_link(),
            VisitEventView::EndLink(link) => self.end_link(link),
        }
    }

    /// The building after the first `count` of `events`, in order.
    pub open spec fn notified_first(self, events: Seq<VisitEventView>, count: nat) -> Building
        decreases count,
    {
        if 0 < count <= events.len() {
            self.notified_first(events, (count - 1) as nat).notified(events[count - 1])
        } else {
            self
        }
    }
}

/// The paragraphs that a sequence of notifications builds: those that are complete
/// after the last of them.
pub open spec fn paragraphs_of(events: Seq<VisitEventView>) -> Seq<Seq<ParagraphNodeView>> {
    Building::start().notified_first(events, events.len()).paragraphs
}

/// The paragraphs of the document under `root`.
pub open spec fn tree_paragraphs(root: MarkupTree) -> Seq<Seq<ParagraphNodeView>> {
    paragraphs_of(events_of(root))
}

/// The paragraphs of a content: those of the document that the HTML parser reads
/// from it.
pub open spec fn content_paragraphs(content: Seq<char>) -> Seq<Seq<ParagraphNodeView>> {
    tree_paragraphs(document_tree(content))
}

/// Parse content
///
/// This function extracts information from Mastodon content
/// as list of paragraphs. Each paragraph is a list of paragraph nodes.
///
/// The content may hold [`MAX_CONTENT_BYTES`] bytes at most: the HTML parser panics on
/// content that its buffers cannot hold. [`content_fits`](super::markup::content_fits)
/// tells whether a content is within the limit.
pub fn parse_content(content: &str) -> (paragraphs: Vec<Vec<ParagraphNode>>)
    requires
        encode_utf8(content@).len() <= MAX_CONTENT_BYTES,
    ensures
        paragraphs.deep_view() == content_paragraphs(content@),
{
    build_paragraphs(content_events(content))
}

/// The paragraphs of the document under `root`.
pub fn parse_markup(root: &MarkupNode) -> (paragraphs: Vec<Vec<ParagraphNode>>)
    ensures
        paragraphs.deep_view() == tree_paragraphs(root.deep_view()),
{
    build_paragraphs(Parser::new().parse(root))
}

/// The paragraphs that `events` build when a [`ParseVisitor`] is notified of each, in
/// order.
pub fn build_paragraphs(events: Vec<VisitEvent>) -> (paragraphs: Vec<Vec<ParagraphNode>>)
    ensures
        paragraphs.deep_view() == paragraphs_of(events.deep_view()),
{
    let mut builder = ParseVisitor::default();
    let ghost all = events.deep_view();
    assert(all.len() == events.len());
    for event in it: events
        invariant
            all.len() <= usize::MAX,
            it.seq().len() == all.len(),
            forall|i: int| 0 <= i < all.len() ==> it.seq()[i].deep_view() == all[i],
            builder@ == Building::start().notified_first(all, it.index() as nat),
            builder@.paragraph_count <= it.index(),
            builder@.link_count <= it.index(),
    {
        match event {
            VisitEvent::Text(text) => builder.text(text),
            VisitEvent::NewLine => builder.new_line(),
            VisitEvent::BeginParagraph => builder.begin_paragraph(),
            VisitEvent::EndParagraph => builder.end_paragraph(),
            VisitEvent::BeginLink(link) => builder.begin_link(&link),
            VisitEvent::EndLink(link) => builder.end_link(&link),
        }
    }
    builder.finalize()
}

/// The visitor that builds the paragraphs of a content
pub struct ParseVisitor {
    paragraphs: Vec<Vec<ParagraphNode>>,
    paragraph_count: usize,
    link_count: usize,
    current_paragraph: Vec<ParagraphNode>,
    current_link: Vec<LinkNode>,
}

impl View for ParseVisitor {
    type V = Building;

    closed spec fn view(&self) -> Building {
        Building {
            paragraphs: self.paragraphs.deep_view(),
            paragraph_count: self.paragraph_count as nat,
            link_count: self.link_count as nat,
            current_paragraph: self.current_paragraph.deep_view(),
            current_link: self.current_link.deep_view(),
        }
    }
}

/// Adding an item to a vector adds what it stands for to what the vector stands for.
proof fn lemma_push_deep_view<T: DeepView>(before: Vec<T>, after: Vec<T>, item: T)
    requires
        after@ == before@.push(item),
    ensures
        after.deep_view() == before.deep_view().push(item.deep_view()),
{
    assert(after.deep_view() =~= before.deep_view().push(item.deep_view()));
}

impl Default for ParseVisitor {
    fn default() -> (visitor: Self)
        ensures
            visitor@ == Building::start(),
    {
        let visitor = ParseVisitor {
            paragraphs: Vec::new(),
            paragraph_count: 0,
            link_count: 0,
            current_paragraph: Vec::new(),
            current_link: Vec::new(),
        };
        assert(visitor.paragraphs.deep_view() =~= Seq::empty());
        assert(visitor.current_paragraph.deep_view() =~= Seq::empty());
        assert(visitor.current_link.deep_view() =~= Seq::empty());
        visitor
    }
}

impl Visit for ParseVisitor {
    type Output = Vec<Vec<ParagraphNode>>;

    fn text(&mut self, text: String)
        ensures
            final(self)@ == old(self)@.text(text@),
    {
        if self.paragraph_count > 0 {
            if self.link_count > 0 {
                let node = LinkNode::Text(text);
                self.current_link.push(node);
                proof {
                    lemma_push_deep_view(old(self).current_link, self.current_link, node);
                }
            } else {
                let node = ParagraphNode::Text(text);
                self.current_paragraph.push(node);
                proof {
                    lemma_push_deep_view(old(self).current_paragraph, self.current_paragraph, node);
                }
            }
        }
    }

    fn new_line(&mut self)
        ensures
            final(self)@ == old(self)@.new_line(),
    {
        if self.paragraph_count > 0 {
            if self.link_count > 0 {
                self.current_link.push(LinkNode::NewLine);
                proof {
                    lemma_push_deep_view(
                        old(self).current_link,
                        self.current_link,
                        LinkNode::NewLine,
                    );
                }
            } else {
                self.current_paragraph.push(ParagraphNode::NewLine);
                proof {
                    lemma_push_deep_view(
                        old(self).current_paragraph,
                        self.current_paragraph,
                        ParagraphNode::NewLine,
                    );
                }
            }
        }
    }

    fn begin_paragraph(&mut self)
        ensures
            final(self)@ == if old(self)@.paragraph_count < usize::MAX {
                old(self)@.begin_paragraph()
            } else {
                old(self)@
            },
    {
        self.paragraph_count = self.paragraph_count.saturating_add(1);
    }

    fn end_paragraph(&mut self)
        ensures
            final(self)@ == old(self)@.end_paragraph(),
    {
        self.paragraph_count = self.paragraph_count.saturating_sub(1);
        if self.paragraph_count == 0 {
            let mut paragraph: Vec<ParagraphNode> = Vec::new();
            std::mem::swap(&mut self.current_paragraph, &mut paragraph);
            self.paragraphs.push(paragraph);
            proof {
                lemma_push_deep_view(old(self).paragraphs, self.paragraphs, paragraph);
                assert(self.current_paragraph.deep_view() =~= Seq::empty());
            }
        }
    }

    fn begin_link(&mut self, _link: &LinkKind)
        ensures
            final(self)@ == if old(self)@.link_count < usize::MAX {
                old(self)@.begin_link()
            } else {
                old(self)@
            },
    {
        self.link_count = self.link_count.saturating_add(1);
    }

    fn end_link(&mut self, link: &LinkKind)
        ensures
            final(self)@ == old(self)@.end_link(link.deep_view()),
    {
        self.link_count = self.link_count.saturating_sub(1);
        if self.link_count == 0 {
            let mut children: Vec<LinkNode> = Vec::new();
            std::mem::swap(&mut self.current_link, &mut children);
            let node = ParagraphNode::Link(link.clone(), children);
            self.current_paragraph.push(node);
            proof {
                lemma_push_deep_view(old(self).current_paragraph, self.current_paragraph, node);
                assert(self.current_link.deep_view() =~= Seq::empty());
            }
        }
    }

    fn finalize(self) -> (paragraphs: Self::Output)
        ensures
            paragraphs.deep_view() == self@.paragraphs,
    {
        self.paragraphs
    }
}

} // verus!
