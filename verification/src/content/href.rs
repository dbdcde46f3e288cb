//! Telling links, mentions and hashtags apart
//!
//! Mastodon writes all three as `<a>` elements. What an anchor is follows from its
//! `class` attribute and from the shape of its `href`: a hashtag is named by the last
//! path segment of its link, a mention by the host and the last path segment.

use super::text::chars_of;
use super::Hashtag;
use super::Link;
use super::LinkKind;
use super::LinkKindView;
use super::Mention;
use url::Url;
use vstd::prelude::*;

verus! {

/// What the classification reads of a parsed URL.
#[derive(Clone, Debug, Eq, PartialEq)]
pub struct UrlParts {
    /// The host, as text, if the URL has one
    pub host: Option<String>,
    /// The segments of the path, unless the URL cannot be a base
    pub path_segments: Option<Vec<String>>,
}

/// What a [`UrlParts`] stands for.
pub struct UrlPartsView {
    pub host: Option<Seq<char>>,
    pub path_segments: Option<Seq<Seq<char>>>,
}

impl DeepView for UrlParts {
    type V = UrlPartsView;

    open spec fn deep_view(&self) -> UrlPartsView {
        UrlPartsView { host: self.host.deep_view(), path_segments: self.path_segments.deep_view() }
    }
}

/// The host and path segments that the URL parser reads from `href`, or `None` where
/// it does not accept `href` as a URL.
pub uninterp spec fn url_parts(href: Seq<char>) -> Option<UrlPartsView>;

/// Parses `href` with `url::Url::parse` and reads the host with `Url::host_str` and
/// the path segments with `Url::path_segments`. `None` stands for a parse error.
///
/// Trusted: that these are functions of the text alone, so that the result is
/// `url_parts(href@)`. Nothing is claimed of which texts parse, nor of the parts.
#[verifier::external_body]
pub(crate) fn read_url(href: &str) -> (parts: Option<UrlParts>)
    ensures
        parts.deep_view() == url_parts(href@),
{
    let url = Url::parse(href).ok()?;
    let host = url.host_str().map(String::from);
    let path_segments = url.path_segments().map(|segments| segments.map(String::from).collect());
    Some(UrlParts { host, path_segments })
}

/// Whether the piece of `class` that starts at `start` is `name`, where the pieces of
/// `class` are what is left of it when it is cut at every space.
pub open spec fn class_at(class: Seq<char>, name: Seq<char>, start: int) -> bool {
    &&& 0 <= start
    &&& start + name.len() <= class.len()
    &&& class.subrange(start, start + name.len()) == name
    &&& start == 0 || class[start - 1] == ' '
    &&& start + name.len() == class.len() || class[start + name.len()] == ' '
    &&& forall|k: int| 0 <= k < name.len() ==> name[k] != ' '
}

/// Whether `name` is in the set of classes that the attribute value `class` lists,
/// separated by spaces.
pub open spec fn spec_has_class(class: Seq<char>, name: Seq<char>) -> bool {
    exists|start: int| #[trigger] class_at(class, name, start)
}

/// The last path segment, if the path has one. A path that is the root alone has
/// none: the URL parser hands out one empty segment for it, which names nothing. A
/// path that ends in a slash has an empty last segment.
pub open spec fn last_segment(path_segments: Option<Seq<Seq<char>>>) -> Option<Seq<char>> {
    match path_segments {
        Some(segments) => if segments.len() == 0 || (segments.len() == 1 && segments[0].len()
            == 0) {
            None
        } else {
            Some(segments.last())
        },
        None => None,
    }
}

/// The mention or hashtag that an anchor stands for, if it is one: `href` and `class`
/// are its attributes, `parts` is what the URL parser made of `href`.
pub open spec fn special_link_kind(
    href: Seq<char>,
    class: Seq<char>,
    parts: Option<UrlPartsView>,
) -> Option<LinkKindView> {
    match parts {
        None => None,
        Some(parts) => if spec_has_class(class, "hashtag"@) {
            match last_segment(parts.path_segments) {
                Some(tag) => Some(LinkKindView::Hashtag { href, tag }),
                None => None,
            }
        } else if spec_has_class(class, "mention"@) {
            match (parts.host, last_segment(parts.path_segments)) {
                (Some(host), Some(user)) => Some(LinkKindView::Mention { href, host, user }),
                _ => None,
            }
        } else {
            None
        },
    }
}

/// What an anchor stands for: a mention or a hashtag where it is one, and a plain link
/// to `href` in every other case.
pub open spec fn link_kind(
    href: Seq<char>,
    class: Seq<char>,
    parts: Option<UrlPartsView>,
) -> LinkKindView {
    match special_link_kind(href, class, parts) {
        Some(kind) => kind,
        None => LinkKindView::Link { href },
    }
}

/// An anchor whose classes name neither `hashtag` nor `mention` is a plain link to its
/// `href`, whatever the URL parser makes of it.
pub proof fn lemma_plain_link_without_special_class(
    href: Seq<char>,
    class: Seq<char>,
    parts: Option<UrlPartsView>,
)
    requires
        !spec_has_class(class, "hashtag"@),
        !spec_has_class(class, "mention"@),
    ensures
        link_kind(href, class, parts) == (LinkKindView::Link { href }),
{
}

/// An anchor whose `href` the URL parser does not accept, or whose path has no segment
/// (it cannot be a base, or its path is the root alone), is a plain link to its `href`,
/// whatever its classes are.
pub proof fn lemma_plain_link_without_path_segment(
    href: Seq<char>,
    class: Seq<char>,
    parts: Option<UrlPartsView>,
)
    requires
        parts matches Some(parts) ==> last_segment(parts.path_segments) is None,
    ensures
        link_kind(href, class, parts) == (LinkKindView::Link { href }),
{
}

/// An anchor is a plain link in these cases and no others: its `href` does not parse;
/// its classes name neither `hashtag` nor `mention`; they name `hashtag` and the path
/// has no segment; they name `mention` and not `hashtag`, and the host or the path
/// segment is missing.
pub proof fn lemma_special_link_is_none(
    href: Seq<char>,
    class: Seq<char>,
    parts: Option<UrlPartsView>,
)
    ensures
        special_link_kind(href, class, parts) is None <==> {
            ||| parts is None
            ||| !spec_has_class(class, "hashtag"@) && !spec_has_class(class, "mention"@)
            ||| spec_has_class(class, "hashtag"@) && last_segment(parts->0.path_segments) is None
            ||| !spec_has_class(class, "hashtag"@) && spec_has_class(class, "mention"@)
                && (parts->0.host is None || last_segment(parts->0.path_segments) is None)
        },
{
}

/// The path of a bare host is the root alone, so a link to a bare host is a plain
/// link, whatever its classes are.
pub proof fn lemma_plain_link_to_bare_host(
    href: Seq<char>,
    class: Seq<char>,
    host: Option<Seq<char>>,
)
    ensures
        link_kind(
            href,
            class,
            Some(UrlPartsView { host, path_segments: Some(seq![Seq::<char>::empty()]) }),
        ) == (LinkKindView::Link { href }),
{
}

/// Whatever an anchor stands for, it carries its `href` as it was written.
pub proof fn lemma_link_kind_keeps_href(
    href: Seq<char>,
    class: Seq<char>,
    parts: Option<UrlPartsView>,
)
    ensures
        link_kind(href, class, parts).href() == href,
{
}

/// Whether the characters of `name` stand in `class` from `start` on.
fn matches_at(class: &Vec<char>, name: &Vec<char>, start: usize) -> (same: bool)
    requires
        start + name.len() <= class.len(),
    ensures
        same == (class@.subrange(start as int, start + name.len()) == name@),
{
    let mut offset: usize = 0;
    while offset < name.len()
        invariant
            offset <= name.len(),
            start + name.len() <= class.len(),
            forall|k: int| 0 <= k < offset ==> class@[start + k] == name@[k],
        decreases name.len() - offset,
    {
        if class[start + offset] != name[offset] {
            assert(class@.subrange(start as int, start + name.len())[offset as int]
                == class@[start + offset]);
            return false;
        }
        offset += 1;
    }
    assert(class@.subrange(start as int, start + name.len()) =~= name@);
    true
}

/// Whether a space is among `chars`.
fn holds_space(chars: &Vec<char>) -> (found: bool)
    ensures
        found == !(forall|k: int| 0 <= k < chars.len() ==> chars@[k] != ' '),
{
    let mut index: usize = 0;
    while index < chars.len()
        invariant
            index <= chars.len(),
            forall|k: int| 0 <= k < index ==> chars@[k] != ' ',
        decreases chars.len() - index,
    {
        if chars[index] == ' ' {
            return true;
        }
        index += 1;
    }
    false
}

/// Whether the piece of `class` that starts at `start` is `name`.
fn is_class_at(class: &Vec<char>, name: &Vec<char>, start: usize) -> (found: bool)
    requires
        start + name.len() <= class.len(),
        forall|k: int| 0 <= k < name.len() ==> name@[k] != ' ',
    ensures
        found == class_at(class@, name@, start as int),
{
    let end = start + name.len();
    (start == 0 || class[start - 1] == ' ') && (end == class.len() || class[end] == ' ')
        && matches_at(class, name, start)
}

/// Whether `name` is one of the classes that the attribute value `class` lists.
pub fn has_class(class: &str, name: &str) -> (found: bool)
    ensures
        found == spec_has_class(class@, name@),
{
    let class_chars = chars_of(class);
    let name_chars = chars_of(name);
    if holds_space(&name_chars) || name_chars.len() > class_chars.len() {
        assert(forall|start: int| !class_at(class@, name@, start));
        return false;
    }
    let last = class_chars.len() - name_chars.len();
    let mut start: usize = 0;
    while start < last
        invariant
            start <= last,
            last == class_chars.len() - name_chars.len(),
            class_chars@ == class@,
            name_chars@ == name@,
            forall|k: int| 0 <= k < name_chars.len() ==> name_chars@[k] != ' ',
            forall|earlier: int| 0 <= earlier < start ==> !class_at(class@, name@, earlier),
        decreases last - start,
    {
        if is_class_at(&class_chars, &name_chars, start) {
            return true;
        }
        start += 1;
    }
    let found = is_class_at(&class_chars, &name_chars, last);
    assert(!found ==> forall|start: int| !class_at(class@, name@, start));
    found
}

/// The last of the path segments, if the path has one.
fn take_last_segment(path_segments: Option<Vec<String>>) -> (segment: Option<String>)
    ensures
        segment.deep_view() == last_segment(path_segments.deep_view()),
{
    match path_segments {
        Some(mut segments) => {
            if segments.len() == 1 && segments[0].as_str().is_empty() {
                None
            } else {
                segments.pop()
            }
        },
        None => None,
    }
}

/// The mention or hashtag that an anchor with the attributes `href` and `class` stands
/// for, where `parts` is what the URL parser made of `href`; `None` where the anchor
/// is a plain link.
///
/// Nothing but an `href` that parsed can be more than a plain link. With the class
/// `hashtag` the anchor is a hashtag, named by the last path segment. Without it and
/// with the class `mention` it is a mention, of the last path segment at the host.
/// Where the segment or the host is missing, the anchor is a plain link; the path of a
/// bare host, which is the root alone, has no segment.
pub fn special_link(href: &str, class: &str, parts: Option<UrlParts>) -> (kind: Option<LinkKind>)
    ensures
        kind.deep_view() == special_link_kind(href@, class@, parts.deep_view()),
{
    let parts = match parts {
        Some(parts) => parts,
        None => { return None; },
    };
    if has_class(class, "hashtag") {
        match take_last_segment(parts.path_segments) {
            Some(tag) => Some(LinkKind::Hashtag(Hashtag { href: href.to_owned(), tag })),
            None => None,
        }
    } else if has_class(class, "mention") {
        match (parts.host, take_last_segment(parts.path_segments)) {
            (Some(host), Some(user)) => Some(
                LinkKind::Mention(Mention { href: href.to_owned(), host, user }),
            ),
            _ => None,
        }
    } else {
        None
    }
}

} // verus!
