//! What holds of the notifications of every content
//!
//! A visitor may rely on two things, however malformed the markup is: the runs of text
//! that it is notified of are maximal, and the paragraphs and links that it is notified
//! of are properly nested. Where the markup is tidy, with paragraphs outside of each
//! other and links in paragraphs, the paragraphs that are built hold maximal runs of
//! text too. The functions of this module are the proofs.

use super::markup::MarkupTree;
use super::parse::paragraphs_of;
use super::parse::tree_paragraphs;
use super::parse::Building;
use super::parse::LinkNodeView;
use super::parse::ParagraphNodeView;
use super::visit::children_of;
use super::visit::events_of;
use super::visit::visit_kind;
use super::visit::VisitEventView;
use super::visit::VisitKindView;
use super::visit::Walk;
use super::LinkKindView;
use vstd::prelude::*;

verus! {

/// Whether `events` hold no empty run of text and no two runs of text side by side.
pub open spec fn text_is_maximal(events: Seq<VisitEventView>) -> bool {
    &&& forall|i: int|
        0 <= i < events.len() ==> (#[trigger] events[i] matches VisitEventView::Text(text)
            ==> text.len() > 0)
    &&& forall|i: int, j: int|
        0 <= i && j == i + 1 && j < events.len() ==> !(#[trigger] events[i] is Text
            && #[trigger] events[j] is Text)
}

/// Whether the notifications of `walk` are maximal runs of text and the last of them
/// is no run of text, so that the text that is pending can follow them as one run.
spec fn settled(walk: Walk) -> bool {
    &&& text_is_maximal(walk.events)
    &&& walk.events.len() > 0 ==> !(walk.events.last() is Text)
}

/// A boundary leaves the walk settled.
proof fn lemma_notify_settles(walk: Walk, event: VisitEventView)
    requires
        settled(walk),
        !(event is Text),
    ensures
        settled(walk.notify(event)),
{
    let flushed = walk.flush();
    assert(text_is_maximal(flushed.events));
    assert(text_is_maximal(walk.notify(event).events));
}

/// A walk through a node leaves the walk settled.
proof fn lemma_walk_settles(walk: Walk, node: MarkupTree)
    requires
        settled(walk),
    ensures
        settled(walk.through(node)),
    decreases node, 0nat,
{
    let children = children_of(node);
    match visit_kind(node) {
        VisitKindView::Nothing => {},
        VisitKindView::Children => {
            lemma_walk_children_settles(walk, children, children.len());
        },
        VisitKindView::Text(_) => {},
        VisitKindView::NewLine => {
            lemma_notify_settles(walk, VisitEventView::NewLine);
        },
        VisitKindView::Ellipsis => {
            lemma_walk_children_settles(walk, children, children.len());
        },
        VisitKindView::Paragraph => {
            let opened = walk.notify(VisitEventView::BeginParagraph);
            lemma_notify_settles(walk, VisitEventView::BeginParagraph);
            lemma_walk_children_settles(opened, children, children.len());
            lemma_notify_settles(
                opened.through_first(children, children.len()),
                VisitEventView::EndParagraph,
            );
        },
        VisitKindView::Link(link) => {
            let opened = walk.notify(VisitEventView::BeginLink(link));
            lemma_notify_settles(walk, VisitEventView::BeginLink(link));
            lemma_walk_children_settles(opened, children, children.len());
            lemma_notify_settles(
                opened.through_first(children, children.len()),
                VisitEventView::EndLink(link),
            );
        },
    }
}

/// A walk through nodes leaves the walk settled.
proof fn lemma_walk_children_settles(walk: Walk, nodes: Seq<MarkupTree>, count: nat)
    requires
        settled(walk),
    ensures
        settled(walk.through_first(nodes, count)),
    decreases nodes, count,
{
    if 0 < count <= nodes.len() {
        lemma_walk_children_settles(walk, nodes, (count - 1) as nat);
        lemma_walk_settles(walk.through_first(nodes, (count - 1) as nat), nodes[count - 1]);
    }
}

/// The runs of text that a visitor is notified of are maximal: none is empty, and no
/// two follow each other without a boundary between them, however the markup splits
/// the text into nodes.
pub proof fn lemma_text_runs_are_maximal(root: MarkupTree)
    ensures
        text_is_maximal(events_of(root)),
{
    lemma_walk_settles(Walk::start(), root);
}

/// What a notification has opened: a paragraph, or a link of some kind.
pub enum Opened {
    Paragraph,
    Link(LinkKindView),
}

/// What is open after one more notification, innermost last, where `open` was open
/// before it; `None` where the notification ends what is not the innermost open.
pub open spec fn open_next(open: Option<Seq<Opened>>, event: VisitEventView) -> Option<
    Seq<Opened>,
> {
    match open {
        None => None,
        Some(open) => match event {
            VisitEventView::Text(_) => Some(open),
            VisitEventView::NewLine => Some(open),
            VisitEventView::BeginParagraph => Some(open.push(Opened::Paragraph)),
            VisitEventView::BeginLink(link) => Some(open.push(Opened::Link(link))),
            VisitEventView::EndParagraph => if open.len() > 0 && open.last()
                == Opened::Paragraph {
                Some(open.drop_last())
            } else {
                None
            },
            VisitEventView::EndLink(link) => if open.len() > 0 && open.last() == Opened::Link(
                link,
            ) {
                Some(open.drop_last())
            } else {
                None
            },
        },
    }
}

/// What is open after the first `count` of `events`, where nothing was open before.
pub open spec fn open_after(events: Seq<VisitEventView>, count: nat) -> Option<Seq<Opened>>
    decreases count,
{
    if 0 < count <= events.len() {
        open_next(open_after(events, (count - 1) as nat), events[count - 1])
    } else {
        Some(Seq::empty())
    }
}

/// Whether `events` are properly nested: every end of a paragraph or a link ends the
/// innermost that is open, a link with the kind that it began with, and nothing is
/// left open.
pub open spec fn well_nested(events: Seq<VisitEventView>) -> bool {
    open_after(events, events.len()) == Some(Seq::<Opened>::empty())
}

/// What is open after some of `events` does not depend on what follows them.
proof fn lemma_open_after_prefix(events: Seq<VisitEventView>, event: VisitEventView, count: nat)
    requires
        count <= events.len(),
    ensures
        open_after(events.push(event), count) == open_after(events, count),
    decreases count,
{
    if 0 < count {
        lemma_open_after_prefix(events, event, (count - 1) as nat);
    }
}

/// What is open after one more notification follows from what was open before it.
proof fn lemma_open_after_push(events: Seq<VisitEventView>, event: VisitEventView)
    ensures
        open_after(events.push(event), events.len() + 1) == open_next(
            open_after(events, events.len()),
            event,
        ),
{
    lemma_open_after_prefix(events, event, events.len());
}

/// A flush opens and ends nothing.
proof fn lemma_flush_keeps_open(walk: Walk)
    ensures
        open_after(walk.flush().events, walk.flush().events.len()) == open_after(
            walk.events,
            walk.events.len(),
        ),
{
    if walk.text.len() > 0 {
        lemma_open_after_push(walk.events, VisitEventView::Text(walk.text));
    }
}

/// What is open after a boundary follows from what was open before it.
proof fn lemma_notify_open(walk: Walk, event: VisitEventView)
    ensures
        open_after(walk.notify(event).events, walk.notify(event).events.len()) == open_next(
            open_after(walk.events, walk.events.len()),
            event,
        ),
{
    lemma_flush_keeps_open(walk);
    lemma_open_after_push(walk.flush().events, event);
}

/// A walk through a node ends all that it opens and nothing else.
proof fn lemma_walk_keeps_open(walk: Walk, node: MarkupTree, open: Seq<Opened>)
    requires
        open_after(walk.events, walk.events.len()) == Some(open),
    ensures
        open_after(walk.through(node).events, walk.through(node).events.len()) == Some(open),
    decreases node, 0nat,
{
    let children = children_of(node);
    match visit_kind(node) {
        VisitKindView::Nothing => {},
        VisitKindView::Children => {
            lemma_walk_children_keeps_open(walk, children, children.len(), open);
        },
        VisitKindView::Text(_) => {},
        VisitKindView::NewLine => {
            lemma_notify_open(walk, VisitEventView::NewLine);
        },
        VisitKindView::Ellipsis => {
            lemma_walk_children_keeps_open(walk, children, children.len(), open);
        },
        VisitKindView::Paragraph => {
            let opened = walk.notify(VisitEventView::BeginParagraph);
            let inside = open.push(Opened::Paragraph);
            lemma_notify_open(walk, VisitEventView::BeginParagraph);
            lemma_walk_children_keeps_open(opened, children, children.len(), inside);
            lemma_notify_open(
                opened.through_first(children, children.len()),
                VisitEventView::EndParagraph,
            );
            assert(inside.drop_last() =~= open);
        },
        VisitKindView::Link(link) => {
            let opened = walk.notify(VisitEventView::BeginLink(link));
            let inside = open.push(Opened::Link(link));
            lemma_notify_open(walk, VisitEventView::BeginLink(link));
            lemma_walk_children_keeps_open(opened, children, children.len(), inside);
            lemma_notify_open(
                opened.through_first(children, children.len()),
                VisitEventView::EndLink(link),
            );
            assert(inside.drop_last() =~= open);
        },
    }
}

/// A walk through nodes ends all that it opens and nothing else.
proof fn lemma_walk_children_keeps_open(
    walk: Walk,
    nodes: Seq<MarkupTree>,
    count: nat,
    open: Seq<Opened>,
)
    requires
        open_after(walk.events, walk.events.len()) == Some(open),
    ensures
        open_after(
            walk.through_first(nodes, count).events,
            walk.through_first(nodes, count).events.len(),
        ) == Some(open),
    decreases nodes, count,
{
    if 0 < count <= nodes.len() {
        lemma_walk_children_keeps_open(walk, nodes, (count - 1) as nat, open);
        lemma_walk_keeps_open(walk.through_first(nodes, (count - 1) as nat), nodes[count - 1], open);
    }
}

/// The notifications of a document are properly nested, however its markup is: every
/// paragraph and every link that begins also ends, inside of what it began in, and a
/// link ends with the kind that it began with.
pub proof fn lemma_notifications_are_nested(root: MarkupTree)
    ensures
        well_nested(events_of(root)),
{
    let start = Walk::start();
    lemma_walk_keeps_open(start, root, Seq::empty());
    lemma_flush_keeps_open(start.through(root));
}

/// Whether what is open is nothing, a paragraph, or a link in a paragraph.
pub open spec fn tidy_open(open: Option<Seq<Opened>>) -> bool {
    open matches Some(open) && (open.len() == 0 || (open[0] == Opened::Paragraph && (open.len()
        == 1 || (open.len() == 2 && open[1] is Link))))
}

/// Whether `events` are tidy: no paragraph begins inside of a paragraph or of a link,
/// and no link begins inside of a link or outside of a paragraph.
pub open spec fn tidy(events: Seq<VisitEventView>) -> bool {
    forall|count: nat| count <= events.len() ==> tidy_open(#[trigger] open_after(events, count))
}

/// Whether `nodes` hold no empty run of text and no two runs of text side by side.
pub open spec fn link_is_maximal(nodes: Seq<LinkNodeView>) -> bool {
    &&& forall|i: int|
        0 <= i < nodes.len() ==> (#[trigger] nodes[i] matches LinkNodeView::Text(text)
            ==> text.len() > 0)
    &&& forall|i: int, j: int|
        0 <= i && j == i + 1 && j < nodes.len() ==> !(#[trigger] nodes[i] is Text
            && #[trigger] nodes[j] is Text)
}

/// Whether `nodes` and the links among them hold no empty run of text and no two runs
/// of text side by side.
pub open spec fn paragraph_is_maximal(nodes: Seq<ParagraphNodeView>) -> bool {
    &&& forall|i: int|
        0 <= i < nodes.len() ==> (match #[trigger] nodes[i] {
            ParagraphNodeView::Text(text) => text.len() > 0,
            ParagraphNodeView::Link(_, children) => link_is_maximal(children),
            ParagraphNodeView::NewLine => true,
        })
    &&& forall|i: int, j: int|
        0 <= i && j == i + 1 && j < nodes.len() ==> !(#[trigger] nodes[i] is Text
            && #[trigger] nodes[j] is Text)
}

/// Whether `building` holds maximal runs of text only and has open what `open` says;
/// with `ready`, that a run of text can be added to the paragraph or link that is open.
spec fn fits(building: Building, open: Seq<Opened>, ready: bool) -> bool {
    &&& forall|j: int|
        0 <= j < building.paragraphs.len() ==> paragraph_is_maximal(
            #[trigger] building.paragraphs[j],
        )
    &&& paragraph_is_maximal(building.current_paragraph)
    &&& link_is_maximal(building.current_link)
    &&& building.paragraph_count == (if open.len() > 0 {
        1nat
    } else {
        0nat
    })
    &&& building.link_count == (if open.len() > 1 {
        1nat
    } else {
        0nat
    })
    &&& open.len() == 0 ==> building.current_paragraph.len() == 0
    &&& open.len() <= 1 ==> building.current_link.len() == 0
    &&& ready && open.len() == 1 && building.current_paragraph.len() > 0
        ==> !(building.current_paragraph.last() is Text)
    &&& ready && open.len() == 2 && building.current_link.len() > 0
        ==> !(building.current_link.last() is Text)
}

/// A node that is no empty run of text can follow maximal runs of text in a link,
/// unless it is a run of text that follows one.
proof fn lemma_link_takes(nodes: Seq<LinkNodeView>, node: LinkNodeView)
    requires
        link_is_maximal(nodes),
        node matches LinkNodeView::Text(text) ==> text.len() > 0 && (nodes.len() > 0
            ==> !(nodes.last() is Text)),
    ensures
        link_is_maximal(nodes.push(node)),
{
    let longer = nodes.push(node);
    assert forall|i: int, j: int| 0 <= i && j == i + 1 && j < longer.len() implies !(
        #[trigger] longer[i] is Text && #[trigger] longer[j] is Text
    ) by {
        if j < nodes.len() {
            assert(longer[i] == nodes[i] && longer[j] == nodes[j]);
        }
    }
}

/// A node that is no empty run of text, and no link with one, can follow maximal runs
/// of text in a paragraph, unless it is a run of text that follows one.
proof fn lemma_paragraph_takes(nodes: Seq<ParagraphNodeView>, node: ParagraphNodeView)
    requires
        paragraph_is_maximal(nodes),
        node matches ParagraphNodeView::Text(text) ==> text.len() > 0 && (nodes.len() > 0
            ==> !(nodes.last() is Text)),
        node matches ParagraphNodeView::Link(_, children) ==> link_is_maximal(children),
    ensures
        paragraph_is_maximal(nodes.push(node)),
{
    let longer = nodes.push(node);
    assert forall|i: int, j: int| 0 <= i && j == i + 1 && j < longer.len() implies !(
        #[trigger] longer[i] is Text && #[trigger] longer[j] is Text
    ) by {
        if j < nodes.len() {
            assert(longer[i] == nodes[i] && longer[j] == nodes[j]);
        }
    }
}

/// A run of text that follows a boundary keeps the building fit.
proof fn lemma_text_fits(building: Building, open: Seq<Opened>, text: Seq<char>)
    requires
        fits(building, open, true),
        open.len() <= 2,
        text.len() > 0,
    ensures
        fits(building.text(text), open, false),
{
    if open.len() == 2 {
        lemma_link_takes(building.current_link, LinkNodeView::Text(text));
    } else if open.len() == 1 {
        lemma_paragraph_takes(building.current_paragraph, ParagraphNodeView::Text(text));
    }
}

/// A line break keeps the building fit, and ready for a run of text.
proof fn lemma_new_line_fits(building: Building, open: Seq<Opened>)
    requires
        fits(building, open, false),
        open.len() <= 2,
    ensures
        fits(building.new_line(), open, true),
{
    if open.len() == 2 {
        lemma_link_takes(building.current_link, LinkNodeView::NewLine);
    } else if open.len() == 1 {
        lemma_paragraph_takes(building.current_paragraph, ParagraphNodeView::NewLine);
    }
}

/// A paragraph that begins where nothing is open keeps the building fit.
proof fn lemma_begin_paragraph_fits(building: Building, open: Seq<Opened>)
    requires
        fits(building, open, false),
        open.len() == 0,
    ensures
        fits(building.begin_paragraph(), open.push(Opened::Paragraph), true),
{
}

/// A paragraph that ends where nothing but it is open keeps the building fit.
proof fn lemma_end_paragraph_fits(building: Building, open: Seq<Opened>)
    requires
        fits(building, open, false),
        open.len() == 1,
    ensures
        fits(building.end_paragraph(), open.drop_last(), true),
{
    let ended = building.end_paragraph();
    assert forall|j: int| 0 <= j < ended.paragraphs.len() implies paragraph_is_maximal(
        #[trigger] ended.paragraphs[j],
    ) by {
        if j < building.paragraphs.len() {
            assert(ended.paragraphs[j] == building.paragraphs[j]);
        }
    }
}

/// A link that begins in a paragraph, outside of a link, keeps the building fit.
proof fn lemma_begin_link_fits(building: Building, open: Seq<Opened>, link: LinkKindView)
    requires
        fits(building, open, false),
        open.len() == 1,
    ensures
        fits(building.begin_link(), open.push(Opened::Link(link)), true),
{
}

/// A link that ends in a paragraph keeps the building fit.
proof fn lemma_end_link_fits(building: Building, open: Seq<Opened>, link: LinkKindView)
    requires
        fits(building, open, false),
        open.len() == 2,
    ensures
        fits(building.end_link(link), open.drop_last(), true),
{
    lemma_paragraph_takes(
        building.current_paragraph,
        ParagraphNodeView::Link(link, building.current_link),
    );
}

/// After each of tidy notifications with maximal runs of text the building is fit, and
/// ready for a run of text unless the last notification was one.
proof fn lemma_tidy_keeps_fit(events: Seq<VisitEventView>, count: nat)
    requires
        text_is_maximal(events),
        tidy(events),
        count <= events.len(),
    ensures
        open_after(events, count) is Some,
        fits(
            Building::start().notified_first(events, count),
            open_after(events, count)->0,
            count == 0 || !(events[count - 1] is Text),
        ),
    decreases count,
{
    assert(tidy_open(open_after(events, count)));
    if count > 0 {
        let before = (count - 1) as nat;
        lemma_tidy_keeps_fit(events, before);
        assert(tidy_open(open_after(events, before)));
        let event = events[count - 1];
        let was = Building::start().notified_first(events, before);
        let open = open_after(events, before)->0;
        if before > 0 {
            assert(!(events[before - 1] is Text && events[count - 1] is Text));
        }
        match event {
            VisitEventView::Text(text) => {
                lemma_text_fits(was, open, text);
            },
            VisitEventView::NewLine => {
                lemma_new_line_fits(was, open);
            },
            VisitEventView::BeginParagraph => {
                lemma_begin_paragraph_fits(was, open);
            },
            VisitEventView::EndParagraph => {
                lemma_end_paragraph_fits(was, open);
            },
            VisitEventView::BeginLink(link) => {
                lemma_begin_link_fits(was, open, link);
            },
            VisitEventView::EndLink(link) => {
                lemma_end_link_fits(was, open, link);
            },
        }
    }
}

/// The paragraphs that tidy notifications with maximal runs of text build hold maximal
/// runs of text: none is empty, and no two stand side by side in a paragraph or in a
/// link.
pub proof fn lemma_tidy_paragraphs_are_maximal(events: Seq<VisitEventView>, index: int)
    requires
        text_is_maximal(events),
        tidy(events),
        0 <= index < paragraphs_of(events).len(),
    ensures
        paragraph_is_maximal(paragraphs_of(events)[index]),
{
    lemma_tidy_keeps_fit(events, events.len());
}

/// Whether `node` and what is under it is tidy markup, where `depth` says what it
/// stands in: nothing (0), a paragraph (1), or a link in a paragraph (2). In tidy
/// markup a paragraph stands in nothing and a link stands in a paragraph, as far as
/// the walk goes.
pub open spec fn tidy_markup(node: MarkupTree, depth: nat) -> bool
    decreases node,
{
    let inside = match visit_kind(node) {
        VisitKindView::Paragraph => 1nat,
        VisitKindView::Link(_) => 2nat,
        _ => depth,
    };
    let fits_here = match visit_kind(node) {
        VisitKindView::Paragraph => depth == 0,
        VisitKindView::Link(_) => depth == 1,
        _ => true,
    };
    let walked = match visit_kind(node) {
        VisitKindView::Nothing => false,
        VisitKindView::Text(_) => false,
        VisitKindView::NewLine => false,
        _ => true,
    };
    match node {
        MarkupTree::Element(_, children) => fits_here && (walked ==> forall|i: int|
            0 <= i < children.len() ==> tidy_markup(#[trigger] children[i], inside)),
        MarkupTree::Text(_) => true,
        MarkupTree::Other(children) => forall|i: int|
            0 <= i < children.len() ==> tidy_markup(#[trigger] children[i], inside),
    }
}

/// One more notification after tidy ones, with what is open still tidy, is tidy.
proof fn lemma_tidy_push(events: Seq<VisitEventView>, event: VisitEventView)
    requires
        tidy(events),
        tidy_open(open_next(open_after(events, events.len()), event)),
    ensures
        tidy(events.push(event)),
{
    let longer = events.push(event);
    assert forall|count: nat| count <= longer.len() implies tidy_open(
        #[trigger] open_after(longer, count),
    ) by {
        if count <= events.len() {
            lemma_open_after_prefix(events, event, count);
            assert(tidy_open(open_after(events, count)));
        } else {
            lemma_open_after_push(events, event);
        }
    }
}

/// A boundary after tidy notifications, with what is open still tidy, is tidy.
proof fn lemma_tidy_notify(walk: Walk, event: VisitEventView)
    requires
        tidy(walk.events),
        tidy_open(open_next(open_after(walk.events, walk.events.len()), event)),
    ensures
        tidy(walk.notify(event).events),
{
    lemma_tidy_flush(walk);
    lemma_flush_keeps_open(walk);
    lemma_tidy_push(walk.flush().events, event);
}

/// A flush after tidy notifications is tidy.
proof fn lemma_tidy_flush(walk: Walk)
    requires
        tidy(walk.events),
    ensures
        tidy(walk.flush().events),
{
    if walk.text.len() > 0 {
        assert(tidy_open(open_after(walk.events, walk.events.len())));
        lemma_tidy_push(walk.events, VisitEventView::Text(walk.text));
    }
}

/// A walk through tidy markup keeps the notifications tidy.
proof fn lemma_walk_keeps_tidy(walk: Walk, node: MarkupTree, open: Seq<Opened>)
    requires
        tidy(walk.events),
        open_after(walk.events, walk.events.len()) == Some(open),
        tidy_markup(node, open.len()),
    ensures
        tidy(walk.through(node).events),
    decreases node, 0nat,
{
    let children = children_of(node);
    assert(tidy_open(open_after(walk.events, walk.events.len())));
    match visit_kind(node) {
        VisitKindView::Nothing => {},
        VisitKindView::Children => {
            lemma_walk_children_keeps_tidy(walk, children, children.len(), open, open.len());
        },
        VisitKindView::Text(_) => {},
        VisitKindView::NewLine => {
            lemma_tidy_notify(walk, VisitEventView::NewLine);
        },
        VisitKindView::Ellipsis => {
            lemma_walk_children_keeps_tidy(walk, children, children.len(), open, open.len());
        },
        VisitKindView::Paragraph => {
            let opened = walk.notify(VisitEventView::BeginParagraph);
            let inside = open.push(Opened::Paragraph);
            lemma_notify_open(walk, VisitEventView::BeginParagraph);
            lemma_tidy_notify(walk, VisitEventView::BeginParagraph);
            lemma_walk_children_keeps_tidy(opened, children, children.len(), inside, 1);
            let walked = opened.through_first(children, children.len());
            lemma_walk_children_keeps_open(opened, children, children.len(), inside);
            assert(inside.drop_last() =~= open);
            lemma_tidy_notify(walked, VisitEventView::EndParagraph);
        },
        VisitKindView::Link(link) => {
            let opened = walk.notify(VisitEventView::BeginLink(link));
            let inside = open.push(Opened::Link(link));
            lemma_notify_open(walk, VisitEventView::BeginLink(link));
            lemma_tidy_notify(walk, VisitEventView::BeginLink(link));
            lemma_walk_children_keeps_tidy(opened, children, children.len(), inside, 2);
            let walked = opened.through_first(children, children.len());
            lemma_walk_children_keeps_open(opened, children, children.len(), inside);
            assert(inside.drop_last() =~= open);
            lemma_tidy_notify(walked, VisitEventView::EndLink(link));
        },
    }
}

/// A walk through nodes of tidy markup keeps the notifications tidy.
proof fn lemma_walk_children_keeps_tidy(
    walk: Walk,
    nodes: Seq<MarkupTree>,
    count: nat,
    open: Seq<Opened>,
    depth: nat,
)
    requires
        tidy(walk.events),
        open_after(walk.events, walk.events.len()) == Some(open),
        open.len() == depth,
        forall|i: int| 0 <= i < nodes.len() ==> tidy_markup(#[trigger] nodes[i], depth),
    ensures
        tidy(walk.through_first(nodes, count).events),
    decreases nodes, count,
{
    if 0 < count <= nodes.len() {
        let before = (count - 1) as nat;
        lemma_walk_children_keeps_tidy(walk, nodes, before, open, depth);
        lemma_walk_children_keeps_open(walk, nodes, before, open);
        lemma_walk_keeps_tidy(walk.through_first(nodes, before), nodes[count - 1], open);
    }
}

/// The notifications of tidy markup are tidy.
pub proof fn lemma_tidy_markup_is_tidy(root: MarkupTree)
    requires
        tidy_markup(root, 0),
    ensures
        tidy(events_of(root)),
{
    let start = Walk::start();
    assert(tidy(start.events)) by {
        assert forall|count: nat| count <= start.events.len() implies tidy_open(
            #[trigger] open_after(start.events, count),
        ) by {}
    }
    lemma_walk_keeps_tidy(start, root, Seq::empty());
    lemma_tidy_flush(start.through(root));
}

/// The paragraphs of a document of tidy markup hold maximal runs of text, however the
/// markup splits the text into nodes: none is empty, and no two stand side by side in
/// a paragraph or in a link.
pub proof fn lemma_tidy_markup_is_maximal(root: MarkupTree, index: int)
    requires
        tidy_markup(root, 0),
        0 <= index < tree_paragraphs(root).len(),
    ensures
        paragraph_is_maximal(tree_paragraphs(root)[index]),
{
    lemma_tidy_markup_is_tidy(root);
    lemma_tidy_document_is_maximal(root, index);
}

/// The paragraphs of a document whose notifications are tidy hold maximal runs of
/// text, however the markup splits the text into nodes.
pub proof fn lemma_tidy_document_is_maximal(root: MarkupTree, index: int)
    requires
        tidy(events_of(root)),
        0 <= index < tree_paragraphs(root).len(),
    ensures
        paragraph_is_maximal(tree_paragraphs(root)[index]),
{
    lemma_text_runs_are_maximal(root);
    lemma_tidy_paragraphs_are_maximal(events_of(root), index);
}

} // verus!
