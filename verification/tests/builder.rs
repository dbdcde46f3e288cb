use crabodon::content::parse::build_paragraphs;
use crabodon::content::parse::LinkNode;
use crabodon::content::parse::ParagraphNode;
use crabodon::content::parse::ParseVisitor;
use crabodon::content::visit::replay;
use crabodon::content::visit::Visit;
use crabodon::content::visit::VisitEvent;
use crabodon::content::Link;
use crabodon::content::LinkKind;

fn plain(href: &str) -> LinkKind {
    LinkKind::Link(Link { href: href.to_string() })
}

fn text(value: &str) -> VisitEvent {
    VisitEvent::Text(value.to_string())
}

#[test]
fn nothing_is_built_from_nothing() {
    assert_eq!(build_paragraphs(vec![]), Vec::<Vec<ParagraphNode>>::new());
    assert_eq!(ParseVisitor::default().finalize(), Vec::<Vec<ParagraphNode>>::new());
}

#[test]
fn text_and_line_break_outside_paragraph_are_dropped() {
    let mut visitor = ParseVisitor::default();
    visitor.text("dropped".to_string());
    visitor.new_line();
    visitor.begin_paragraph();
    visitor.text("kept".to_string());
    visitor.end_paragraph();
    visitor.text("dropped too".to_string());
    visitor.new_line();
    assert_eq!(visitor.finalize(), vec![vec![ParagraphNode::Text("kept".to_string())]]);
}

#[test]
fn paragraph_that_is_not_ended_is_not_built() {
    let events = vec![VisitEvent::BeginParagraph, text("open")];
    assert_eq!(build_paragraphs(events), Vec::<Vec<ParagraphNode>>::new());
}

#[test]
fn only_the_outermost_paragraph_is_built() {
    let events = vec![
        VisitEvent::BeginParagraph,
        text("a"),
        VisitEvent::BeginParagraph,
        text("b"),
        VisitEvent::EndParagraph,
        VisitEvent::NewLine,
        VisitEvent::EndParagraph,
    ];
    assert_eq!(
        build_paragraphs(events),
        vec![vec![
            ParagraphNode::Text("a".to_string()),
            ParagraphNode::Text("b".to_string()),
            ParagraphNode::NewLine,
        ]]
    );
}

#[test]
fn stray_end_of_paragraph_builds_an_empty_paragraph() {
    let events = vec![
        VisitEvent::EndParagraph,
        VisitEvent::BeginParagraph,
        text("a"),
        VisitEvent::EndParagraph,
        VisitEvent::EndParagraph,
    ];
    assert_eq!(
        build_paragraphs(events),
        vec![vec![], vec![ParagraphNode::Text("a".to_string())], vec![]]
    );
}

#[test]
fn text_inside_link_goes_to_the_link() {
    let events = vec![
        VisitEvent::BeginParagraph,
        text("before"),
        VisitEvent::BeginLink(plain("x")),
        text("label"),
        VisitEvent::NewLine,
        VisitEvent::EndLink(plain("x")),
        VisitEvent::NewLine,
        VisitEvent::EndParagraph,
    ];
    assert_eq!(
        build_paragraphs(events),
        vec![vec![
            ParagraphNode::Text("before".to_string()),
            ParagraphNode::Link(
                plain("x"),
                vec![LinkNode::Text("label".to_string()), LinkNode::NewLine],
            ),
            ParagraphNode::NewLine,
        ]]
    );
}

#[test]
fn link_is_built_with_the_kind_it_ends_with() {
    let events = vec![
        VisitEvent::BeginParagraph,
        VisitEvent::BeginLink(plain("begin")),
        VisitEvent::EndLink(plain("end")),
        VisitEvent::EndParagraph,
    ];
    assert_eq!(build_paragraphs(events), vec![vec![ParagraphNode::Link(plain("end"), vec![])]]);
}

#[test]
fn only_the_outermost_link_is_built() {
    let events = vec![
        VisitEvent::BeginParagraph,
        VisitEvent::BeginLink(plain("outer")),
        text("a"),
        VisitEvent::BeginLink(plain("inner")),
        text("b"),
        VisitEvent::EndLink(plain("inner")),
        VisitEvent::EndLink(plain("outer")),
        VisitEvent::EndParagraph,
    ];
    assert_eq!(
        build_paragraphs(events),
        vec![vec![ParagraphNode::Link(
            plain("outer"),
            vec![LinkNode::Text("a".to_string()), LinkNode::Text("b".to_string())],
        )]]
    );
}

#[test]
fn stray_end_of_link_builds_an_empty_link() {
    let events = vec![
        VisitEvent::BeginParagraph,
        VisitEvent::EndLink(plain("x")),
        text("a"),
        VisitEvent::EndParagraph,
    ];
    assert_eq!(
        build_paragraphs(events),
        vec![vec![ParagraphNode::Link(plain("x"), vec![]), ParagraphNode::Text("a".to_string())]]
    );
}

#[test]
fn link_outside_paragraph_waits_for_the_next_paragraph() {
    let events = vec![
        VisitEvent::BeginLink(plain("x")),
        text("dropped"),
        VisitEvent::EndLink(plain("x")),
        VisitEvent::BeginParagraph,
        text("a"),
        VisitEvent::EndParagraph,
    ];
    assert_eq!(
        build_paragraphs(events),
        vec![vec![ParagraphNode::Link(plain("x"), vec![]), ParagraphNode::Text("a".to_string())]]
    );
}

#[test]
fn link_that_is_not_ended_keeps_what_follows() {
    let events = vec![
        VisitEvent::BeginParagraph,
        VisitEvent::BeginLink(plain("x")),
        text("a"),
        VisitEvent::EndParagraph,
        VisitEvent::BeginParagraph,
        text("b"),
        VisitEvent::EndLink(plain("x")),
        VisitEvent::EndParagraph,
    ];
    assert_eq!(
        build_paragraphs(events),
        vec![
            vec![],
            vec![ParagraphNode::Link(
                plain("x"),
                vec![LinkNode::Text("a".to_string()), LinkNode::Text("b".to_string())],
            )],
        ]
    );
}

#[test]
fn replay_gives_what_build_paragraphs_gives() {
    let events = || {
        vec![
            text("outside"),
            VisitEvent::BeginParagraph,
            text("a"),
            VisitEvent::BeginLink(plain("x")),
            text("b"),
            VisitEvent::EndLink(plain("x")),
            VisitEvent::NewLine,
            VisitEvent::EndParagraph,
        ]
    };
    assert_eq!(replay(events(), ParseVisitor::default()), build_paragraphs(events()));
}

/// A visitor that only counts the paragraphs that begin.
struct Count(usize);

impl Visit for Count {
    type Output = usize;

    fn begin_paragraph(&mut self) {
        self.0 += 1;
    }

    fn finalize(self) -> usize {
        self.0
    }
}

#[test]
fn methods_that_are_not_implemented_do_nothing() {
    let events = vec![
        text("a"),
        VisitEvent::BeginParagraph,
        VisitEvent::NewLine,
        VisitEvent::BeginLink(plain("x")),
        VisitEvent::EndLink(plain("x")),
        VisitEvent::EndParagraph,
        VisitEvent::BeginParagraph,
        VisitEvent::EndParagraph,
    ];
    assert_eq!(replay(events, Count(0)), 2);
}

/// A visitor that keeps the order in which its methods are called.
struct Trace(Vec<String>);

impl Visit for Trace {
    type Output = Vec<String>;

    fn text(&mut self, text: String) {
        self.0.push(format!("text {}", text));
    }

    fn new_line(&mut self) {
        self.0.push("new_line".to_string());
    }

    fn begin_paragraph(&mut self) {
        self.0.push("begin_paragraph".to_string());
    }

    fn end_paragraph(&mut self) {
        self.0.push("end_paragraph".to_string());
    }

    fn begin_link(&mut self, link: &LinkKind) {
        self.0.push(format!("begin_link {:?}", link));
    }

    fn end_link(&mut self, link: &LinkKind) {
        self.0.push(format!("end_link {:?}", link));
    }

    fn finalize(self) -> Vec<String> {
        self.0
    }
}

#[test]
fn replay_calls_one_method_for_each_event_in_order() {
    let events = vec![
        VisitEvent::EndLink(plain("y")),
        text("a"),
        VisitEvent::EndParagraph,
        VisitEvent::NewLine,
        VisitEvent::BeginLink(plain("x")),
        VisitEvent::BeginParagraph,
    ];
    assert_eq!(
        replay(events, Trace(vec![])),
        vec![
            "end_link Link(Link { href: \"y\" })".to_string(),
            "text a".to_string(),
            "end_paragraph".to_string(),
            "new_line".to_string(),
            "begin_link Link(Link { href: \"x\" })".to_string(),
            "begin_paragraph".to_string(),
        ]
    );
}
