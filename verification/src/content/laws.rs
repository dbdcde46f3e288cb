//! What holds of every content
//!
//! The functions of this module are proofs. Each states, over the models that the
//! contracts of [`visit`](super::visit) and [`parse`](super::parse) use, something that
//! holds whatever the markup is.

use super::href::spec_has_class;
use super::markup::ElementView;
use super::markup::MarkupTree;
use super::parse::content_paragraphs;
use super::parse::tree_paragraphs;
use super::parse::Building;
use super::parse::LinkNodeView;
use super::parse::ParagraphNodeView;
use super::visit::attribute_text;
use super::visit::children_of;
use super::visit::element_kind;
use super::visit::ellipsis_mark;
use super::visit::events_of;
use super::visit::visit_kind;
use super::visit::VisitEventView;
use super::visit::VisitKindView;
use super::visit::Walk;
use super::LinkKindView;
use vstd::prelude::*;

verus! {

/// A walk through one node is a walk through that node.
proof fn lemma_through_one(walk: Walk, nodes: Seq<MarkupTree>)
    requires
        nodes.len() == 1,
    ensures
        walk.through_first(nodes, 1) == walk.through(nodes[0]),
{
    reveal_with_fuel(Walk::through_first, 2);
}

/// A walk through two nodes goes through the first and the second.
proof fn lemma_through_two(walk: Walk, nodes: Seq<MarkupTree>)
    requires
        nodes.len() == 2,
    ensures
        walk.through_first(nodes, 2) == walk.through(nodes[0]).through(nodes[1]),
{
    reveal_with_fuel(Walk::through_first, 3);
}

/// A walk through three nodes goes through the first, the second and the third.
proof fn lemma_through_three(walk: Walk, nodes: Seq<MarkupTree>)
    requires
        nodes.len() == 3,
    ensures
        walk.through_first(nodes, 3) == walk.through(nodes[0]).through(nodes[1]).through(nodes[2]),
{
    reveal_with_fuel(Walk::through_first, 4);
}

/// A line break in a paragraph, between two runs of text, stands between them in the
/// paragraph that is built.
pub proof fn lemma_line_break_separates_text(
    paragraph: MarkupTree,
    before: Seq<char>,
    after: Seq<char>,
)
    requires
        visit_kind(paragraph) == VisitKindView::Paragraph,
        children_of(paragraph).len() == 3,
        visit_kind(children_of(paragraph)[0]) == VisitKindView::Text(before),
        visit_kind(children_of(paragraph)[1]) == VisitKindView::NewLine,
        visit_kind(children_of(paragraph)[2]) == VisitKindView::Text(after),
        before.len() > 0,
        after.len() > 0,
    ensures
        tree_paragraphs(paragraph) == seq![
            seq![
                ParagraphNodeView::Text(before),
                ParagraphNodeView::NewLine,
                ParagraphNodeView::Text(after),
            ],
        ],
{
    let children = children_of(paragraph);
    let opened = Walk::start().notify(VisitEventView::BeginParagraph);
    lemma_through_three(opened, children);
    let events = seq![
        VisitEventView::BeginParagraph,
        VisitEventView::Text(before),
        VisitEventView::NewLine,
        VisitEventView::Text(after),
        VisitEventView::EndParagraph,
    ];
    assert(Walk::start().text + before =~= before);
    assert(Seq::<char>::empty() + after =~= after);
    assert(events_of(paragraph) =~= events);
    reveal_with_fuel(Building::notified_first, 6);
    assert(tree_paragraphs(paragraph) =~~= seq![
        seq![
            ParagraphNodeView::Text(before),
            ParagraphNodeView::NewLine,
            ParagraphNodeView::Text(after),
        ],
    ]);
}

/// Two runs of text in a paragraph, the second inside an element that is transparent,
/// are one run of text in the paragraph that is built.
pub proof fn lemma_text_merges_across_wrapper(
    paragraph: MarkupTree,
    first: Seq<char>,
    second: Seq<char>,
)
    requires
        visit_kind(paragraph) == VisitKindView::Paragraph,
        children_of(paragraph).len() == 2,
        visit_kind(children_of(paragraph)[0]) == VisitKindView::Text(first),
        visit_kind(children_of(paragraph)[1]) == VisitKindView::Children,
        children_of(children_of(paragraph)[1]).len() == 1,
        visit_kind(children_of(children_of(paragraph)[1])[0]) == VisitKindView::Text(second),
        first.len() > 0,
        second.len() > 0,
    ensures
        tree_paragraphs(paragraph) == seq![seq![ParagraphNodeView::Text(first + second)]],
{
    let children = children_of(paragraph);
    let wrapper = children[1];
    let opened = Walk::start().notify(VisitEventView::BeginParagraph);
    lemma_through_two(opened, children);
    lemma_through_one(opened.through(children[0]), children_of(wrapper));
    let events = seq![
        VisitEventView::BeginParagraph,
        VisitEventView::Text(first + second),
        VisitEventView::EndParagraph,
    ];
    assert(Seq::<char>::empty() + first + second =~= first + second);
    assert(events_of(paragraph) =~= events);
    reveal_with_fuel(Building::notified_first, 4);
    assert(tree_paragraphs(paragraph) =~~= seq![seq![ParagraphNodeView::Text(first + second)]]);
}

/// A walk through an element that wraps cut text, with one run of text in it, reads
/// that text and then the ellipsis mark: both become part of the run of text that is
/// notified next.
pub proof fn lemma_ellipsis_follows_text(walk: Walk, wrapper: MarkupTree, text: Seq<char>)
    requires
        visit_kind(wrapper) == VisitKindView::Ellipsis,
        children_of(wrapper).len() == 1,
        visit_kind(children_of(wrapper)[0]) == VisitKindView::Text(text),
    ensures
        walk.through(wrapper) == walk.read(text + ellipsis_mark()),
{
    lemma_through_one(walk, children_of(wrapper));
    assert(walk.text + text + ellipsis_mark() =~= walk.text + (text + ellipsis_mark()));
}

/// A paragraph that holds nothing but text that was cut short is built as one run of
/// text: the text that is left, with the ellipsis mark behind it.
pub proof fn lemma_ellipsis_ends_text(paragraph: MarkupTree, text: Seq<char>)
    requires
        visit_kind(paragraph) == VisitKindView::Paragraph,
        children_of(paragraph).len() == 1,
        visit_kind(children_of(paragraph)[0]) == VisitKindView::Ellipsis,
        children_of(children_of(paragraph)[0]).len() == 1,
        visit_kind(children_of(children_of(paragraph)[0])[0]) == VisitKindView::Text(text),
    ensures
        tree_paragraphs(paragraph) == seq![
            seq![ParagraphNodeView::Text(text + ellipsis_mark())],
        ],
{
    let opened = Walk::start().notify(VisitEventView::BeginParagraph);
    lemma_through_one(opened, children_of(paragraph));
    lemma_ellipsis_follows_text(opened, children_of(paragraph)[0], text);
    let events = seq![
        VisitEventView::BeginParagraph,
        VisitEventView::Text(text + ellipsis_mark()),
        VisitEventView::EndParagraph,
    ];
    assert(Seq::<char>::empty() + (text + ellipsis_mark()) =~= text + ellipsis_mark());
    assert(events_of(paragraph) =~= events);
    reveal_with_fuel(Building::notified_first, 4);
    assert(tree_paragraphs(paragraph) =~~= seq![
        seq![ParagraphNodeView::Text(text + ellipsis_mark())],
    ]);
}

/// Text, a link and text again in a paragraph are built in that order: the text, the
/// link with what it holds, the text.
pub proof fn lemma_paragraph_keeps_order(
    paragraph: MarkupTree,
    before: Seq<char>,
    link: LinkKindView,
    label: Seq<char>,
    after: Seq<char>,
)
    requires
        visit_kind(paragraph) == VisitKindView::Paragraph,
        children_of(paragraph).len() == 3,
        visit_kind(children_of(paragraph)[0]) == VisitKindView::Text(before),
        visit_kind(children_of(paragraph)[1]) == VisitKindView::Link(link),
        children_of(children_of(paragraph)[1]).len() == 1,
        visit_kind(children_of(children_of(paragraph)[1])[0]) == VisitKindView::Text(label),
        visit_kind(children_of(paragraph)[2]) == VisitKindView::Text(after),
        before.len() > 0,
        label.len() > 0,
        after.len() > 0,
    ensures
        tree_paragraphs(paragraph) == seq![
            seq![
                ParagraphNodeView::Text(before),
                ParagraphNodeView::Link(link, seq![LinkNodeView::Text(label)]),
                ParagraphNodeView::Text(after),
            ],
        ],
{
    let children = children_of(paragraph);
    let opened = Walk::start().notify(VisitEventView::BeginParagraph);
    lemma_through_three(opened, children);
    let at_link = opened.through(children[0]).notify(VisitEventView::BeginLink(link));
    lemma_through_one(at_link, children_of(children[1]));
    let events = seq![
        VisitEventView::BeginParagraph,
        VisitEventView::Text(before),
        VisitEventView::BeginLink(link),
        VisitEventView::Text(label),
        VisitEventView::EndLink(link),
        VisitEventView::Text(after),
        VisitEventView::EndParagraph,
    ];
    assert(Seq::<char>::empty() + before =~= before);
    assert(Seq::<char>::empty() + label =~= label);
    assert(Seq::<char>::empty() + after =~= after);
    assert(events_of(paragraph) =~= events);
    reveal_with_fuel(Building::notified_first, 8);
    assert(tree_paragraphs(paragraph) =~~= seq![
        seq![
            ParagraphNodeView::Text(before),
            ParagraphNodeView::Link(link, seq![LinkNodeView::Text(label)]),
            ParagraphNodeView::Text(after),
        ],
    ]);
}

/// Outside of every paragraph a run of text and a line break leave the building as
/// it is: nothing of them reaches the paragraphs.
pub proof fn lemma_outside_paragraph_is_dropped(building: Building, text: Seq<char>)
    requires
        building.paragraph_count == 0,
    ensures
        building.text(text) == building,
        building.new_line() == building,
{
}

/// Whether no node that is walked through, in `node` and under it, is a paragraph.
pub open spec fn without_paragraph(node: MarkupTree) -> bool
    decreases node,
{
    let walked = match visit_kind(node) {
        VisitKindView::Nothing => false,
        VisitKindView::Text(_) => false,
        VisitKindView::NewLine => false,
        _ => true,
    };
    match node {
        MarkupTree::Element(_, children) => {
            &&& visit_kind(node) != VisitKindView::Paragraph
            &&& walked ==> forall|i: int|
                0 <= i < children.len() ==> without_paragraph(#[trigger] children[i])
        },
        MarkupTree::Text(_) => true,
        MarkupTree::Other(children) => forall|i: int|
            0 <= i < children.len() ==> without_paragraph(#[trigger] children[i]),
    }
}

/// Whether no notification in `events` begins or ends a paragraph.
pub open spec fn without_paragraph_event(events: Seq<VisitEventView>) -> bool {
    forall|i: int|
        0 <= i < events.len() ==> #[trigger] events[i] != VisitEventView::BeginParagraph
            && events[i] != VisitEventView::EndParagraph
}

/// A walk through markup without a paragraph notifies of no paragraph.
proof fn lemma_walk_without_paragraph(walk: Walk, node: MarkupTree)
    requires
        without_paragraph(node),
        without_paragraph_event(walk.events),
    ensures
        without_paragraph_event(walk.through(node).events),
    decreases node, 0nat,
{
    let children = children_of(node);
    match visit_kind(node) {
        VisitKindView::Nothing => {},
        VisitKindView::Children => {
            lemma_walk_children_without_paragraph(walk, children, children.len());
        },
        VisitKindView::Text(_) => {},
        VisitKindView::NewLine => {},
        VisitKindView::Ellipsis => {
            lemma_walk_children_without_paragraph(walk, children, children.len());
        },
        VisitKindView::Paragraph => {},
        VisitKindView::Link(link) => {
            lemma_walk_children_without_paragraph(
                walk.notify(VisitEventView::BeginLink(link)),
                children,
                children.len(),
            );
        },
    }
}

/// A walk through nodes without a paragraph notifies of no paragraph.
proof fn lemma_walk_children_without_paragraph(walk: Walk, nodes: Seq<MarkupTree>, count: nat)
    requires
        forall|i: int| 0 <= i < nodes.len() ==> without_paragraph(#[trigger] nodes[i]),
        without_paragraph_event(walk.events),
    ensures
        without_paragraph_event(walk.through_first(nodes, count).events),
    decreases nodes, count,
{
    if 0 < count <= nodes.len() {
        lemma_walk_children_without_paragraph(walk, nodes, (count - 1) as nat);
        lemma_walk_without_paragraph(
            walk.through_first(nodes, (count - 1) as nat),
            nodes[count - 1],
        );
    }
}

/// Notifications that begin and end no paragraph complete no paragraph.
proof fn lemma_no_paragraph_is_built(events: Seq<VisitEventView>, count: nat)
    requires
        without_paragraph_event(events),
    ensures
        Building::start().notified_first(events, count).paragraphs == Seq::<
            Seq<ParagraphNodeView>,
        >::empty(),
        Building::start().notified_first(events, count).paragraph_count == 0,
    decreases count,
{
    if 0 < count <= events.len() {
        lemma_no_paragraph_is_built(events, (count - 1) as nat);
        assert(events[count - 1] != VisitEventView::BeginParagraph);
    }
}

/// A document in which no paragraph is walked through has no paragraphs: whatever
/// text, line breaks and links it holds, nothing of them is in what is built.
pub proof fn lemma_no_paragraph_no_output(root: MarkupTree)
    requires
        without_paragraph(root),
    ensures
        tree_paragraphs(root) == Seq::<Seq<ParagraphNodeView>>::empty(),
{
    lemma_walk_without_paragraph(Walk::start(), root);
    let events = events_of(root);
    lemma_no_paragraph_is_built(events, events.len());
}

/// An anchor whose classes name neither `hashtag` nor `mention` plays the role of a
/// plain link to its `href`, and to nothing where it has none.
pub proof fn lemma_anchor_without_special_class(element: ElementView)
    requires
        element.name == "a"@,
        !spec_has_class(attribute_text(element.class), "hashtag"@),
        !spec_has_class(attribute_text(element.class), "mention"@),
    ensures
        element_kind(element) == VisitKindView::Link(
            LinkKindView::Link { href: attribute_text(element.href) },
        ),
{
    reveal_strlit("a");
    reveal_strlit("p");
    assert("a"@[0] != "p"@[0]);
}

/// Two extractions from the same content build the same paragraphs: what is built is
/// a function of the content alone.
pub proof fn lemma_extraction_repeats(
    content: Seq<char>,
    first: Seq<Seq<ParagraphNodeView>>,
    second: Seq<Seq<ParagraphNodeView>>,
)
    requires
        first == content_paragraphs(content),
        second == content_paragraphs(content),
    ensures
        first == second,
{
}

} // verus!
