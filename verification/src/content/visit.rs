//! Parse content using a visitor
//!
//! This module offers a visitor-based system that maps closely to Mastodon's
//! HTML representation.
//!
//! Implement [`Visit`] to be notified about elements in the content. A visitor
//! is used with [`visit_content`].

use super::href::link_kind;
use super::href::read_url;
use super::href::special_link;
use super::href::special_link_kind;
use super::href::url_parts;
use super::markup::document_tree;
use super::markup::forest_view;
use super::markup::MAX_CONTENT_BYTES;
use super::markup::parse_document;
use super::markup::Element;
use super::markup::ElementView;
use super::markup::MarkupNode;
use super::markup::MarkupTree;
use super::text::same_text;
use super::Link;
use super::LinkKind;
use super::LinkKindView;
use vstd::prelude::*;
use vstd::utf8::encode_utf8;

verus! {

/// A trait to visit a Mastodon content
///
/// Implement this trait to parse some content tag by tag. Visitor-like methods
/// notifies about the elements of the content and `finalize` allows building an
/// output type.
///
/// Every method but `finalize` does nothing unless it is implemented: it leaves the
/// visitor as it is.
///
/// The methods carry no contract of their own. What an implementation states of its
/// methods holds of each call that [`visit_content`] and [`replay`] make: their
/// contracts say which calls are made, in which order, and on which visitor.
///
/// This trait should be used with [`visit_content`]
pub trait Visit: Sized {
    /// Output type
    type Output;

    /// Text
    ///
    /// Implement this method to be notified about text
    /// (inside elements). Can be called several times
    /// (once per element)
    fn text(&mut self, _text: String)
        default_ensures
            *final(self) == *old(self),
    {
    }

    /// New line
    ///
    /// Implement this method to be notified about a new line.
    ///
    /// This usually happens inside a paragraph element.
    fn new_line(&mut self)
        default_ensures
            *final(self) == *old(self),
    {
    }

    /// Start of a paragraph
    ///
    /// Implement this method to be notified about the
    /// start of a paragraph element.
    ///
    /// This element can be followed by any other element,
    /// usually text, links, mentions or hashtags.
    ///
    /// It should not be followed by other paragraph
    /// elements.
    fn begin_paragraph(&mut self)
        default_ensures
            *final(self) == *old(self),
    {
    }

    /// End of a paragraph
    ///
    /// Implement this method to be notified about the
    /// end of a paragraph element.
    fn end_paragraph(&mut self)
        default_ensures
            *final(self) == *old(self),
    {
    }

    /// Start of a link
    ///
    /// Implement this method to be notified about the
    /// start of a link. The [`LinkKind`] contain the
    /// type of link being visited, either a link, a
    /// mention or a hashtag.
    ///
    /// This element usually contains text elements.
    ///
    /// In case of a mention, the text will start with an @
    /// and in case of a hashtag, it will start with a #.
    fn begin_link(&mut self, _link: &LinkKind)
        default_ensures
            *final(self) == *old(self),
    {
    }

    /// End of a link
    ///
    /// Implement this method to be notified about the
    /// end of a link.
    fn end_link(&mut self, _link: &LinkKind)
        default_ensures
            *final(self) == *old(self),
    {
    }

    /// The end of the content has been reached
    ///
    /// Output must be produced at that step.
    fn finalize(self) -> Self::Output;
}

/// One notification to a visitor
#[derive(Debug, Eq, PartialEq)]
pub enum VisitEvent {
    /// A run of text
    Text(String),
    /// A line break
    NewLine,
    /// Start of a paragraph
    BeginParagraph,
    /// End of a paragraph
    EndParagraph,
    /// Start of a link
    BeginLink(LinkKind),
    /// End of a link
    EndLink(LinkKind),
}

/// What a [`VisitEvent`] stands for.
pub enum VisitEventView {
    Text(Seq<char>),
    NewLine,
    BeginParagraph,
    EndParagraph,
    BeginLink(LinkKindView),
    EndLink(LinkKindView),
}

impl DeepView for VisitEvent {
    type V = VisitEventView;

    open spec fn deep_view(&self) -> VisitEventView {
        match self {
            VisitEvent::Text(text) => VisitEventView::Text(text@),
            VisitEvent::NewLine => VisitEventView::NewLine,
            VisitEvent::BeginParagraph => VisitEventView::BeginParagraph,
            VisitEvent::EndParagraph => VisitEventView::EndParagraph,
            VisitEvent::BeginLink(link) => VisitEventView::BeginLink(link.deep_view()),
            VisitEvent::EndLink(link) => VisitEventView::EndLink(link.deep_view()),
        }
    }
}

/// The role that a node of the markup plays in a Mastodon content
#[derive(Debug, Eq, PartialEq)]
pub enum VisitKind {
    /// The node and everything under it is passed over
    Nothing,
    /// The node itself says nothing; what is under it is visited
    Children,
    /// The node is a run of text
    Text(String),
    /// The node is a line break
    NewLine,
    /// The node wraps text that was cut short
    Ellipsis,
    /// The node is a paragraph
    Paragraph,
    /// The node is a link, a mention or a hashtag
    Link(LinkKind),
}

/// What a [`VisitKind`] stands for.
pub enum VisitKindView {
    Nothing,
    Children,
    Text(Seq<char>),
    NewLine,
    Ellipsis,
    Paragraph,
    Link(LinkKindView),
}

impl DeepView for VisitKind {
    type V = VisitKindView;

    open spec fn deep_view(&self) -> VisitKindView {
        match self {
            VisitKind::Nothing => VisitKindView::Nothing,
            VisitKind::Children => VisitKindView::Children,
            VisitKind::Text(text) => VisitKindView::Text(text@),
            VisitKind::NewLine => VisitKindView::NewLine,
            VisitKind::Ellipsis => VisitKindView::Ellipsis,
            VisitKind::Paragraph => VisitKindView::Paragraph,
            VisitKind::Link(link) => VisitKindView::Link(link.deep_view()),
        }
    }
}

/// The text of an attribute, where a missing attribute counts as an empty one.
pub open spec fn attribute_text(value: Option<Seq<char>>) -> Seq<char> {
    match value {
        Some(text) => text,
        None => Seq::empty(),
    }
}

/// The role of an element, by its name:
/// `p` is a paragraph; `a` is a link, of the kind that its `href` and `class` give;
/// `br` is a line break; `span` is passed over where its `class` is `invisible`, wraps
/// cut text where its `class` is `ellipsis`, and is transparent otherwise; every
/// other element is transparent.
pub open spec fn element_kind(element: ElementView) -> VisitKindView {
    let class = attribute_text(element.class);
    let href = attribute_text(element.href);
    if element.name == "p"@ {
        VisitKindView::Paragraph
    } else if element.name == "a"@ {
        VisitKindView::Link(link_kind(href, class, url_parts(href)))
    } else if element.name == "span"@ {
        if class == "invisible"@ {
            VisitKindView::Nothing
        } else if class == "ellipsis"@ {
            VisitKindView::Ellipsis
        } else {
            VisitKindView::Children
        }
    } else if element.name == "br"@ {
        VisitKindView::NewLine
    } else {
        VisitKindView::Children
    }
}

/// The role of a node: that of the element, the text of a text node, and transparent
/// for every other node.
pub open spec fn visit_kind(node: MarkupTree) -> VisitKindView {
    match node {
        MarkupTree::Element(element, _) => element_kind(element),
        MarkupTree::Text(text) => VisitKindView::Text(text),
        MarkupTree::Other(_) => VisitKindView::Children,
    }
}

/// The children of a node; a text node has none.
pub open spec fn children_of(node: MarkupTree) -> Seq<MarkupTree> {
    match node {
        MarkupTree::Element(_, children) => children,
        MarkupTree::Text(_) => Seq::empty(),
        MarkupTree::Other(children) => children,
    }
}

/// The mark that stands for text that was cut short.
pub open spec fn ellipsis_mark() -> Seq<char> {
    seq!['\u{2026}']
}

/// Where a walk over the markup stands: the notifications made so far, and the text
/// that was read since the last of them and has not been notified yet.
pub struct Walk {
    pub events: Seq<VisitEventView>,
    pub text: Seq<char>,
}

impl Walk {
    /// The start of a walk: nothing notified, no text pending.
    pub open spec fn start() -> Walk {
        Walk { events: Seq::empty(), text: Seq::empty() }
    }

    /// More text is read. Nothing is notified.
    pub open spec fn read(self, text: Seq<char>) -> Walk {
        Walk { events: self.events, text: self.text + text }
    }

    /// The pending text, unless it is empty, is notified as one run, and no text is
    /// pending any more.
    pub open spec fn flush(self) -> Walk {
        if self.text.len() > 0 {
            Walk { events: self.events.push(VisitEventView::Text(self.text)), text: Seq::empty() }
        } else {
            self
        }
    }

    /// A boundary is reached: the pending text is flushed, then `event` is notified.
    pub open spec fn notify(self, event: VisitEventView) -> Walk {
        Walk { events: self.flush().events.push(event), text: Seq::empty() }
    }

    /// The walk goes through `node` and what is under it, depth first:
    /// - a node that is passed over changes nothing;
    /// - a transparent node is walked through child by child;
    /// - text is read, not notified;
    /// - a line break is notified;
    /// - text that was cut short is walked through, then the ellipsis mark is read;
    /// - a paragraph or a link is notified to begin, walked through, and notified to
    ///   end, a link with the same kind both times.
    pub open spec fn through(self, node: MarkupTree) -> Walk
        decreases node, 0nat,
    {
        let children = children_of(node);
        match visit_kind(node) {
            VisitKindView::Nothing => self,
            VisitKindView::Children => self.through_first(children, children.len()),
            VisitKindView::Text(text) => self.read(text),
            VisitKindView::NewLine => self.notify(VisitEventView::NewLine),
            VisitKindView::Ellipsis => self.through_first(children, children.len()).read(
                ellipsis_mark(),
            ),
            VisitKindView::Paragraph => self.notify(VisitEventView::BeginParagraph).through_first(
                children,
                children.len(),
            ).notify(VisitEventView::EndParagraph),
            VisitKindView::Link(link) => self.notify(VisitEventView::BeginLink(link)).through_first(
                children,
                children.len(),
            ).notify(VisitEventView::EndLink(link)),
        }
    }

    /// The walk goes through the first `count` of `nodes`, in order.
    pub open spec fn through_first(self, nodes: Seq<MarkupTree>, count: nat) -> Walk
        decreases nodes, count,
    {
        if 0 < count <= nodes.len() {
            self.through_first(nodes, (count - 1) as nat).through(nodes[count - 1])
        } else {
            self
        }
    }
}

/// The notifications that a visitor gets of the document under `root`, in order: those
/// of a walk through `root` from the start, with the text that is pending at the end
/// flushed.
pub open spec fn events_of(root: MarkupTree) -> Seq<VisitEventView> {
    Walk::start().through(root).flush().events
}

/// The walk over a markup tree that collects the notifications for a visitor
pub struct Parser {
    events: Vec<VisitEvent>,
    current_text: String,
}

impl View for Parser {
    type V = Walk;

    closed spec fn view(&self) -> Walk {
        Walk { events: self.events.deep_view(), text: self.current_text@ }
    }
}

impl Parser {
    /// A parser at the start of its walk.
    pub fn new() -> (parser: Self)
        ensures
            parser@ == Walk::start(),
    {
        let parser = Parser { events: Vec::new(), current_text: String::new() };
        assert(parser.events.deep_view() =~= Seq::empty());
        parser
    }

    /// Notifies `event`, which is not a run of text, after the pending text.
    fn notify(&mut self, event: VisitEvent)
        ensures
            final(self)@ == old(self)@.notify(event.deep_view()),
    {
        self.commit_string();
        assert(self@.text =~= Seq::empty());
        self.push(event);
    }

    /// Adds `event` to the notifications.
    fn push(&mut self, event: VisitEvent)
        ensures
            final(self)@ == (Walk {
                events: old(self)@.events.push(event.deep_view()),
                text: old(self)@.text,
            }),
    {
        self.events.push(event);
        assert(self.events.deep_view() =~= old(self).events.deep_view().push(event.deep_view()));
    }

    /// Walks through `node` and hands back the notifications, in order.
    pub fn parse(self, node: &MarkupNode) -> (events: Vec<VisitEvent>)
        ensures
            events.deep_view() == self@.through(node.deep_view()).flush().events,
    {
        let mut parser = self;
        parser.visit(node);
        parser.commit_string();
        parser.events
    }

    /// Walks through `node` and what is under it.
    pub fn visit(&mut self, node: &MarkupNode)
        ensures
            final(self)@ == old(self)@.through(node.deep_view()),
        decreases node, 1nat,
    {
        let kind = Self::find_visit_kind(node);
        match kind {
            VisitKind::Nothing => {},
            VisitKind::Children => self.visit_children(node),
            VisitKind::Text(text) => self.current_text.append(text.as_str()),
            VisitKind::NewLine => self.notify(VisitEvent::NewLine),
            VisitKind::Ellipsis => {
                self.visit_children(node);
                proof {
                    reveal_strlit("\u{2026}");
                    assert("\u{2026}"@ =~= ellipsis_mark());
                }
                self.current_text.append("\u{2026}");
            },
            VisitKind::Paragraph => {
                self.notify(VisitEvent::BeginParagraph);
                self.visit_children(node);
                self.notify(VisitEvent::EndParagraph);
            },
            VisitKind::Link(link) => {
                self.notify(VisitEvent::BeginLink(link.clone()));
                self.visit_children(node);
                self.notify(VisitEvent::EndLink(link));
            },
        }
    }

    /// The role of `node`.
    pub fn find_visit_kind(node: &MarkupNode) -> (kind: VisitKind)
        ensures
            kind.deep_view() == visit_kind(node.deep_view()),
    {
        match node {
            MarkupNode::Element(element, _) => Self::find_visit_kind_element(element),
            MarkupNode::Text(text) => VisitKind::Text(text.clone()),
            MarkupNode::Other(_) => VisitKind::Children,
        }
    }

    /// The role of an element.
    pub fn find_visit_kind_element(element: &Element) -> (kind: VisitKind)
        ensures
            kind.deep_view() == element_kind(element.deep_view()),
    {
        let name = element.name.as_str();
        if same_text(name, "p") {
            VisitKind::Paragraph
        } else if same_text(name, "a") {
            let class = attribute_or_empty(&element.class);
            let href = attribute_or_empty(&element.href);
            VisitKind::Link(Self::parse_href(href.to_owned(), class))
        } else if same_text(name, "span") {
            let class = attribute_or_empty(&element.class);
            if same_text(class, "invisible") {
                VisitKind::Nothing
            } else if same_text(class, "ellipsis") {
                VisitKind::Ellipsis
            } else {
                VisitKind::Children
            }
        } else if same_text(name, "br") {
            VisitKind::NewLine
        } else {
            VisitKind::Children
        }
    }

    /// What the anchor with the attributes `href` and `class` stands for: a mention or
    /// a hashtag where [`Parser::parse_special_href`] finds one, else a plain link.
    pub fn parse_href(href: String, class: &str) -> (kind: LinkKind)
        ensures
            kind.deep_view() == link_kind(href@, class@, url_parts(href@)),
    {
        match Self::parse_special_href(href.as_str(), class) {
            Some(kind) => kind,
            None => LinkKind::Link(Link { href }),
        }
    }

    /// The mention or hashtag that the anchor with the attributes `href` and `class`
    /// stands for, if it is one: what [`special_link`] makes of them and of `href` as
    /// the URL parser reads it.
    pub fn parse_special_href(href: &str, class: &str) -> (kind: Option<LinkKind>)
        ensures
            kind.deep_view() == special_link_kind(href@, class@, url_parts(href@)),
    {
        special_link(href, class, read_url(href))
    }

    /// Walks through the children of `node`, in order.
    pub fn visit_children(&mut self, node: &MarkupNode)
        ensures
            final(self)@ == old(self)@.through_first(
                children_of(node.deep_view()),
                children_of(node.deep_view()).len(),
            ),
        decreases node, 0nat,
    {
        let children = match node {
            MarkupNode::Element(_, children) => children,
            MarkupNode::Text(_) => { return ; },
            MarkupNode::Other(children) => children,
        };
        let mut index: usize = 0;
        while index < children.len()
            invariant
                index <= children.len(),
                decreases_to!(node => children),
                self@ == old(self)@.through_first(forest_view(children@), index as nat),
            decreases children.len() - index,
        {
            self.visit(&children[index]);
            index += 1;
        }
    }

    /// Notifies the pending text, unless there is none, as one run.
    pub fn commit_string(&mut self)
        ensures
            final(self)@ == old(self)@.flush(),
    {
        let mut text = String::new();
        std::mem::swap(&mut self.current_text, &mut text);
        if !text.as_str().is_empty() {
            self.push(VisitEvent::Text(text));
        } else {
            assert(self@.text =~= old(self)@.text);
        }
    }
}

/// The text of an attribute, where a missing attribute counts as an empty one.
fn attribute_or_empty(value: &Option<String>) -> (text: &str)
    ensures
        text@ == attribute_text(value.deep_view()),
{
    match value {
        Some(text) => text.as_str(),
        None => {
            proof {
                reveal_strlit("");
                assert(""@ =~= Seq::empty());
            }
            ""
        },
    }
}

/// Whether `call` is a call of the visitor's method for `event`, with what `event`
/// holds as its argument, that has ended as that method can end. A call stands for
/// the visitor that the method is given and for the visitor that it leaves.
pub open spec fn notifies<V: Visit>(call: &mut V, event: VisitEvent) -> bool {
    match event {
        VisitEvent::Text(text) => call_ensures(V::text, (call, text), ()),
        VisitEvent::NewLine => call_ensures(V::new_line, (call,), ()),
        VisitEvent::BeginParagraph => call_ensures(V::begin_paragraph, (call,), ()),
        VisitEvent::EndParagraph => call_ensures(V::end_paragraph, (call,), ()),
        VisitEvent::BeginLink(link) => call_ensures(V::begin_link, (call, &link), ()),
        VisitEvent::EndLink(link) => call_ensures(V::end_link, (call, &link), ()),
    }
}

/// Whether `calls` are one call for each of `events`, in order, and `states` are the
/// visitors that they are given: the first call is given `visitor`, the call for
/// `events[i]` is given `states[i]`, and one more state stands at the end.
pub open spec fn told_in_turn<V: Visit>(
    visitor: V,
    events: Seq<VisitEvent>,
    calls: Seq<&mut V>,
    states: Seq<V>,
) -> bool {
    &&& calls.len() == events.len()
    &&& states.len() == events.len() + 1
    &&& states[0] == visitor
    &&& forall|i: int|
        0 <= i < events.len() ==> mut_ref_current(#[trigger] calls[i]) == states[i] && notifies(
            calls[i],
            events[i],
        )
}

/// Visit content
///
/// This function uses an implementation of [`Visit`]
/// to extract information from a Mastodon content.
///
/// The visitor is notified of the events of the document that the HTML parser reads
/// from `content`: one call of the method for each event, in order, each on the
/// visitor as the call before left it. What `finalize` makes of the visitor that the
/// last call leaves is returned.
pub fn visit_content<V>(content: &str, visitor: V) -> (output: V::Output) where V: Visit
    requires
        encode_utf8(content@).len() <= MAX_CONTENT_BYTES,
    ensures
        exists|events: Vec<VisitEvent>, calls: Seq<&mut V>, states: Seq<V>|
            {
                &&& events.deep_view() == events_of(document_tree(content@))
                &&& #[trigger] told_in_turn(visitor, events@, calls, states)
                &&& forall|i: int|
                    0 <= i < calls.len() ==> mut_ref_future(#[trigger] calls[i]) == states[i + 1]
                &&& call_ensures(V::finalize, (states.last(),), output)
            },
{
    let events = content_events(content);
    let output = replay(events, visitor);
    proof {
        let (calls, states) = choose|calls: Seq<&mut V>, states: Seq<V>|
            {
                &&& #[trigger] told_in_turn(visitor, events@, calls, states)
                &&& forall|i: int|
                    0 <= i < calls.len() ==> mut_ref_future(#[trigger] calls[i]) == states[i + 1]
                &&& call_ensures(V::finalize, (states.last(),), output)
            };
        assert(told_in_turn(visitor, events@, calls, states));
    }
    output
}

/// The notifications that a visitor gets of `content`, in order: those of the
/// document that the HTML parser reads from it.
///
/// The content may hold [`MAX_CONTENT_BYTES`] bytes at most.
pub fn content_events(content: &str) -> (events: Vec<VisitEvent>)
    requires
        encode_utf8(content@).len() <= MAX_CONTENT_BYTES,
    ensures
        events.deep_view() == events_of(document_tree(content@)),
{
    let root = parse_document(content);
    Parser::new().parse(&root)
}

/// Hands `events` to `visitor`, one call for each in order, and returns what the
/// visitor makes of them.
///
/// Each event is handed to the method that stands for it, on the visitor as the call
/// before left it, and `finalize` is called on the visitor that the last call leaves.
pub fn replay<V: Visit>(events: Vec<VisitEvent>, visitor: V) -> (output: V::Output)
    ensures
        exists|calls: Seq<&mut V>, states: Seq<V>|
            {
                &&& #[trigger] told_in_turn(visitor, events@, calls, states)
                &&& forall|i: int|
                    0 <= i < calls.len() ==> mut_ref_future(#[trigger] calls[i]) == states[i + 1]
                &&& call_ensures(V::finalize, (states.last(),), output)
            },
{
    let ghost all = events@;
    let ghost start = visitor;
    let mut visitor = visitor;
    assert(told_in_turn(start, all.take(0), Seq::<&mut V>::empty(), seq![start]));
    for event in it: events
        invariant
            it.seq() == all,
            exists|calls: Seq<&mut V>, states: Seq<V>|
                {
                    &&& #[trigger] told_in_turn(start, all.take(it.index() as int), calls, states)
                    &&& forall|i: int|
                        0 <= i < calls.len() ==> mut_ref_future(#[trigger] calls[i]) == states[i
                            + 1]
                    &&& states.last() == visitor
                },
    {
        let ghost before = visitor;
        visitor = tell(visitor, event);
        proof {
            let done = it.index() as int;
            let (calls, states) = choose|calls: Seq<&mut V>, states: Seq<V>|
                {
                    &&& #[trigger] told_in_turn(start, all.take(done), calls, states)
                    &&& forall|i: int|
                        0 <= i < calls.len() ==> mut_ref_future(#[trigger] calls[i]) == states[i
                            + 1]
                    &&& states.last() == before
                };
            let call = choose|call: &mut V|
                mut_ref_current(call) == before && mut_ref_future(call) == visitor && notifies(
                    call,
                    event,
                );
            assert(all.take(done + 1) =~= all.take(done).push(event));
            assert(told_in_turn(
                start,
                all.take(done + 1),
                calls.push(call),
                states.push(visitor),
            ));
        }
    }
    let output = visitor.finalize();
    proof {
        let (calls, states) = choose|calls: Seq<&mut V>, states: Seq<V>|
            {
                &&& #[trigger] told_in_turn(start, all.take(all.len() as int), calls, states)
                &&& forall|i: int|
                    0 <= i < calls.len() ==> mut_ref_future(#[trigger] calls[i]) == states[i + 1]
                &&& states.last() == visitor
            };
        assert(all.take(all.len() as int) =~= all);
        assert(told_in_turn(start, all, calls, states));
    }
    output
}

/// Hands `event` to the method of `visitor` that stands for it, and returns the
/// visitor as the call leaves it.
fn tell<V: Visit>(visitor: V, event: VisitEvent) -> (after: V)
    ensures
        exists|call: &mut V|
            mut_ref_current(call) == visitor && mut_ref_future(call) == after && notifies(
                call,
                event,
            ),
{
    let mut now = visitor;
    match event {
        VisitEvent::Text(text) => {
            now.text(text);
            proof {
                let call = choose|call: &mut V|
                    mut_ref_current(call) == visitor && mut_ref_future(call) == now
                        && call_ensures(V::text, (call, text), ());
                assert(notifies(call, event));
            }
        },
        VisitEvent::NewLine => {
            now.new_line();
            proof {
                let call = choose|call: &mut V|
                    mut_ref_current(call) == visitor && mut_ref_future(call) == now
                        && call_ensures(V::new_line, (call,), ());
                assert(notifies(call, event));
            }
        },
        VisitEvent::BeginParagraph => {
            now.begin_paragraph();
            proof {
                let call = choose|call: &mut V|
                    mut_ref_current(call) == visitor && mut_ref_future(call) == now
                        && call_ensures(V::begin_paragraph, (call,), ());
                assert(notifies(call, event));
            }
        },
        VisitEvent::EndParagraph => {
            now.end_paragraph();
            proof {
                let call = choose|call: &mut V|
                    mut_ref_current(call) == visitor && mut_ref_future(call) == now
                        && call_ensures(V::end_paragraph, (call,), ());
                assert(notifies(call, event));
            }
        },
        VisitEvent::BeginLink(link) => {
            now.begin_link(&link);
            proof {
                let call = choose|call: &mut V|
                    mut_ref_current(call) == visitor && mut_ref_future(call) == now
                        && call_ensures(V::begin_link, (call, &link), ());
                assert(notifies(call, event));
            }
        },
        VisitEvent::EndLink(link) => {
            now.end_link(&link);
            proof {
                let call = choose|call: &mut V|
                    mut_ref_current(call) == visitor && mut_ref_future(call) == now
                        && call_ensures(V::end_link, (call, &link), ());
                assert(notifies(call, event));
            }
        },
    }
    now
}

} // verus!
