use crabodon::content::visit::visit_content;
use crabodon::content::visit::Visit;
use crabodon::content::Hashtag;
use crabodon::content::Link;
use crabodon::content::LinkKind;
use crabodon::content::Mention;

const REAL_WITH_HASHTAGS: &str = "<p>I have a feeling this will appeal to multiple people for multiple reasons.</p><p>[original source: <a href=\"https://www.reddit.com/r/comics/comments/10rukp8/oc_magic_coding/\" rel=\"nofollow noopener noreferrer\" target=\"_blank\"><span class=\"invisible\">https://www.</span><span class=\"ellipsis\">reddit.com/r/comics/comments/1</span><span class=\"invisible\">0rukp8/oc_magic_coding/</span></a>]</p><p><a href=\"https://dice.camp/tags/ttrpg\" class=\"mention hashtag\" rel=\"nofollow noopener noreferrer\" target=\"_blank\">#<span>ttrpg</span></a> <a href=\"https://dice.camp/tags/magic\" class=\"mention hashtag\" rel=\"nofollow noopener noreferrer\" target=\"_blank\">#<span>magic</span></a> <a href=\"https://dice.camp/tags/coding\" class=\"mention hashtag\" rel=\"nofollow noopener noreferrer\" target=\"_blank\">#<span>coding</span></a></p>";

const REAL_WITH_MENTIONS: &str = "<p><span class=\"h-card\"><a href=\"https://mastodon.org.uk/@cybette\" class=\"u-url mention\" rel=\"nofollow noopener noreferrer\" target=\"_blank\">@<span>cybette</span></a></span> nice ! That&#39;s way better :)</p><p>So basically, you had to take 2 sets of stickers. One for FOSDEM and one for <span class=\"h-card\"><a href=\"https://fosstodon.org/@cfgmgmtcamp\" class=\"u-url mention\" rel=\"nofollow noopener noreferrer\" target=\"_blank\">@<span>cfgmgmtcamp</span></a></span>  ?</p>";

const REAL_WITH_NEWLINES: &str = "<p>Test 1 please ignore<br />Test 1 (cont)</p>";

#[derive(Debug, Eq, PartialEq)]
enum Node {
    Text(String),
    NewLine,
    BeginParagraph,
    EndParagraph,
    BeginLink(LinkKind),
    EndLink(LinkKind),
}

/// A visitor that keeps every notification, in order.
struct Recorder(Vec<Node>);

impl Visit for Recorder {
    type Output = Vec<Node>;

    fn text(&mut self, text: String) {
        self.0.push(Node::Text(text))
    }

    fn new_line(&mut self) {
        self.0.push(Node::NewLine)
    }

    fn begin_paragraph(&mut self) {
        self.0.push(Node::BeginParagraph)
    }

    fn end_paragraph(&mut self) {
        self.0.push(Node::EndParagraph)
    }

    fn begin_link(&mut self, link: &LinkKind) {
        self.0.push(Node::BeginLink(link.clone()))
    }

    fn end_link(&mut self, link: &LinkKind) {
        self.0.push(Node::EndLink(link.clone()))
    }

    fn finalize(self) -> Self::Output {
        self.0
    }
}

#[test]
fn visit_test_real_with_hashtags() {
    // 109805244883278164 on mastodon.social
    let content = REAL_WITH_HASHTAGS;
    let expected = vec![
        Node::BeginParagraph,
        Node::Text(
            "I have a feeling this will appeal to multiple people for multiple reasons."
                .to_string(),
        ),
        Node::EndParagraph,
        Node::BeginParagraph,
        Node::Text("[original source: ".to_string()),
        Node::BeginLink(LinkKind::Link(Link {
            href: "https://www.reddit.com/r/comics/comments/10rukp8/oc_magic_coding/"
                .to_string(),
        })),
        Node::Text("reddit.com/r/comics/comments/1…".to_string()),
        Node::EndLink(LinkKind::Link(Link {
            href: "https://www.reddit.com/r/comics/comments/10rukp8/oc_magic_coding/"
                .to_string(),
        })),
        Node::Text("]".to_string()),
        Node::EndParagraph,
        Node::BeginParagraph,
        Node::BeginLink(LinkKind::Hashtag(Hashtag {
            href: "https://dice.camp/tags/ttrpg".to_string(),
            tag: "ttrpg".to_string(),
        })),
        Node::Text("#ttrpg".to_string()),
        Node::EndLink(LinkKind::Hashtag(Hashtag {
            href: "https://dice.camp/tags/ttrpg".to_string(),
            tag: "ttrpg".to_string(),
        })),
        Node::Text(" ".to_string()),
        Node::BeginLink(LinkKind::Hashtag(Hashtag {
            href: "https://dice.camp/tags/magic".to_string(),
            tag: "magic".to_string(),
        })),
        Node::Text("#magic".to_string()),
        Node::EndLink(LinkKind::Hashtag(Hashtag {
            href: "https://dice.camp/tags/magic".to_string(),
            tag: "magic".to_string(),
        })),
        Node::Text(" ".to_string()),
        Node::BeginLink(LinkKind::Hashtag(Hashtag {
            href: "https://dice.camp/tags/coding".to_string(),
            tag: "coding".to_string(),
        })),
        Node::Text("#coding".to_string()),
        Node::EndLink(LinkKind::Hashtag(Hashtag {
            href: "https://dice.camp/tags/coding".to_string(),
            tag: "coding".to_string(),
        })),
        Node::EndParagraph,
    ];
    assert_eq!(visit_content(content, Recorder(Vec::new())), expected);
}

#[test]
fn visit_test_real_with_mentions() {
    // 109818097593839444 on mastodon.social
    let content = REAL_WITH_MENTIONS;
    let expected = vec![
        Node::BeginParagraph,
        Node::BeginLink(LinkKind::Mention(Mention {
            href: "https://mastodon.org.uk/@cybette".to_string(),
            host: "mastodon.org.uk".to_string(),
            user: "@cybette".to_string(),
        })),
        Node::Text("@cybette".to_string()),
        Node::EndLink(LinkKind::Mention(Mention {
            href: "https://mastodon.org.uk/@cybette".to_string(),
            host: "mastodon.org.uk".to_string(),
            user: "@cybette".to_string(),
        })),
        Node::Text(" nice ! That's way better :)".to_string()),
        Node::EndParagraph,
        Node::BeginParagraph,
        Node::Text(
            "So basically, you had to take 2 sets of stickers. One for FOSDEM and one for "
                .to_string(),
        ),
        Node::BeginLink(LinkKind::Mention(Mention {
            href: "https://fosstodon.org/@cfgmgmtcamp".to_string(),
            host: "fosstodon.org".to_string(),
            user: "@cfgmgmtcamp".to_string(),
        })),
        Node::Text("@cfgmgmtcamp".to_string()),
        Node::EndLink(LinkKind::Mention(Mention {
            href: "https://fosstodon.org/@cfgmgmtcamp".to_string(),
            host: "fosstodon.org".to_string(),
            user: "@cfgmgmtcamp".to_string(),
        })),
        Node::Text("  ?".to_string()),
        Node::EndParagraph,
    ];
    assert_eq!(visit_content(content, Recorder(Vec::new())), expected);
}

#[test]
fn visit_test_real_with_newlines() {
    // 109882001535463183 on mastodon.social
    let content = REAL_WITH_NEWLINES;
    let expected = vec![
        Node::BeginParagraph,
        Node::Text("Test 1 please ignore".to_string()),
        Node::NewLine,
        Node::Text("Test 1 (cont)".to_string()),
        Node::EndParagraph,
    ];
    assert_eq!(visit_content(content, Recorder(Vec::new())), expected);
}
