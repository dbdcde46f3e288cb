use crabodon::content::parse::parse_content;
use crabodon::content::parse::LinkNode;
use crabodon::content::parse::ParagraphNode;
use crabodon::content::Hashtag;
use crabodon::content::Link;
use crabodon::content::LinkKind;
use crabodon::content::Mention;

const REAL_WITH_HASHTAGS: &str = "<p>I have a feeling this will appeal to multiple people for multiple reasons.</p><p>[original source: <a href=\"https://www.reddit.com/r/comics/comments/10rukp8/oc_magic_coding/\" rel=\"nofollow noopener noreferrer\" target=\"_blank\"><span class=\"invisible\">https://www.</span><span class=\"ellipsis\">reddit.com/r/comics/comments/1</span><span class=\"invisible\">0rukp8/oc_magic_coding/</span></a>]</p><p><a href=\"https://dice.camp/tags/ttrpg\" class=\"mention hashtag\" rel=\"nofollow noopener noreferrer\" target=\"_blank\">#<span>ttrpg</span></a> <a href=\"https://dice.camp/tags/magic\" class=\"mention hashtag\" rel=\"nofollow noopener noreferrer\" target=\"_blank\">#<span>magic</span></a> <a href=\"https://dice.camp/tags/coding\" class=\"mention hashtag\" rel=\"nofollow noopener noreferrer\" target=\"_blank\">#<span>coding</span></a></p>";

const REAL_WITH_MENTIONS: &str = "<p><span class=\"h-card\"><a href=\"https://mastodon.org.uk/@cybette\" class=\"u-url mention\" rel=\"nofollow noopener noreferrer\" target=\"_blank\">@<span>cybette</span></a></span> nice ! That&#39;s way better :)</p><p>So basically, you had to take 2 sets of stickers. One for FOSDEM and one for <span class=\"h-card\"><a href=\"https://fosstodon.org/@cfgmgmtcamp\" class=\"u-url mention\" rel=\"nofollow noopener noreferrer\" target=\"_blank\">@<span>cfgmgmtcamp</span></a></span>  ?</p>";

const REAL_WITH_NEWLINES: &str = "<p>Test 1 please ignore<br />Test 1 (cont)</p>";

#[test]
fn parse_test_real_with_hashtags() {
    // 109805244883278164 on mastodon.social
    let content = REAL_WITH_HASHTAGS;
    let expected = vec![
        vec![ParagraphNode::Text(
            "I have a feeling this will appeal to multiple people for multiple reasons."
                .to_string(),
        )],
        vec![
            ParagraphNode::Text("[original source: ".to_string()),
            ParagraphNode::Link(
                LinkKind::Link(Link {
                    href: "https://www.reddit.com/r/comics/comments/10rukp8/oc_magic_coding/"
                        .to_string(),
                }),
                vec![LinkNode::Text(
                    "reddit.com/r/comics/comments/1…".to_string(),
                )],
            ),
            ParagraphNode::Text("]".to_string()),
        ],
        vec![
            ParagraphNode::Link(
                LinkKind::Hashtag(Hashtag {
                    href: "https://dice.camp/tags/ttrpg".to_string(),
                    tag: "ttrpg".to_string(),
                }),
                vec![LinkNode::Text("#ttrpg".to_string())],
            ),
            ParagraphNode::Text(" ".to_string()),
            ParagraphNode::Link(
                LinkKind::Hashtag(Hashtag {
                    href: "https://dice.camp/tags/magic".to_string(),
                    tag: "magic".to_string(),
                }),
                vec![LinkNode::Text("#magic".to_string())],
            ),
            ParagraphNode::Text(" ".to_string()),
            ParagraphNode::Link(
                LinkKind::Hashtag(Hashtag {
                    href: "https://dice.camp/tags/coding".to_string(),
                    tag: "coding".to_string(),
                }),
                vec![LinkNode::Text("#coding".to_string())],
            ),
        ],
    ];
    assert_eq!(parse_content(content), expected);
}

#[test]
fn parse_test_real_with_mentions() {
    // 109818097593839444 on mastodon.social
    let content = REAL_WITH_MENTIONS;
    let expected = vec![
        vec![
            ParagraphNode::Link(
                LinkKind::Mention(Mention {
                    href: "https://mastodon.org.uk/@cybette".to_string(),
                    host: "mastodon.org.uk".to_string(),
                    user: "@cybette".to_string(),
                }),
                vec![LinkNode::Text("@cybette".to_string())],
            ),
            ParagraphNode::Text(" nice ! That's way better :)".to_string()),
        ],
        vec![
            ParagraphNode::Text(
                "So basically, you had to take 2 sets of stickers. One for FOSDEM and one for "
                    .to_string(),
            ),
            ParagraphNode::Link(
                LinkKind::Mention(Mention {
                    href: "https://fosstodon.org/@cfgmgmtcamp".to_string(),
                    host: "fosstodon.org".to_string(),
                    user: "@cfgmgmtcamp".to_string(),
                }),
                vec![LinkNode::Text("@cfgmgmtcamp".to_string())],
            ),
            ParagraphNode::Text("  ?".to_string()),
        ],
    ];
    assert_eq!(parse_content(content), expected);
}

#[test]
fn parse_test_real_with_newlines() {
    // 109882001535463183 on mastodon.social
    let content = REAL_WITH_NEWLINES;
    let expected = vec![vec![
        ParagraphNode::Text("Test 1 please ignore".to_string()),
        ParagraphNode::NewLine,
        ParagraphNode::Text("Test 1 (cont)".to_string()),
    ]];
    assert_eq!(parse_content(content), expected);
}
