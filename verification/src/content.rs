//! Parse content
//!
//! Mastodon content is written with a subset of HTML, where links, mentions and hashtags
//! are all modelled with the `<a>` tag. Parsing HTML is a hard task in general.
//!
//! This module uses a real HTML parser to deal with statuses in a safe and user-friendly
//! manner. There are 2 main facilities to parse status content. The lower level module
//! [`visit`] offers a visitor-like trait that maps closely to the HTML representation of
//! a status, while the higher level [`parse`] provides a processed, tree-like
//! representation of Mastodon content.
//!
//! The other modules serve those two: [`markup`] holds the tree that the HTML parser
//! hands over, [`href`] tells links, mentions and hashtags apart, [`text`] compares
//! text, and [`laws`] and [`stream`] prove what holds of every content.
//!
//! This module itself only contains the link types that the others share, each with
//! the mathematical view that the contracts speak of.

use vstd::prelude::*;

pub mod href;
pub mod laws;
pub mod markup;
pub mod parse;
pub mod stream;
pub mod text;
pub mod visit;

verus! {

/// A link
#[derive(Debug, Eq, PartialEq)]
pub struct Link {
    /// href
    ///
    /// ie link
    pub href: String,
}

/// A mention
///
/// A mention is a specific kind of link.
#[derive(Debug, Eq, PartialEq)]
pub struct Mention {
    /// href
    ///
    /// ie link for this mention
    pub href: String,
    /// Host of the user
    ///
    /// Hostname of the Mastodon instance this user is in,
    /// without the @ prefix.
    pub host: String,
    /// User
    ///
    /// The last path segment of the link, which Mastodon writes with the @ prefix
    pub user: String,
}

/// A hashtag
///
/// A hashtag is a specific kind of link.
#[derive(Debug, Eq, PartialEq)]
pub struct Hashtag {
    /// href
    ///
    /// ie link for this hashtag
    pub href: String,
    /// Hashtag
    ///
    /// Without the # prefix
    pub tag: String,
}

/// A list specifying types of Mastodon links
#[derive(Debug, Eq, PartialEq)]
#[non_exhaustive]
pub enum LinkKind {
    /// A link
    Link(Link),
    /// A mention
    Mention(Mention),
    /// A hashtag
    Hashtag(Hashtag),
}

/// What a [`LinkKind`] stands for: the same three cases over sequences of characters.
pub enum LinkKindView {
    /// A plain link to `href`
    Link { href: Seq<char> },
    /// A mention of `user` on `host`
    Mention { href: Seq<char>, host: Seq<char>, user: Seq<char> },
    /// A hashtag `tag`
    Hashtag { href: Seq<char>, tag: Seq<char> },
}

impl LinkKindView {
    /// The link text, which every case carries.
    pub open spec fn href(self) -> Seq<char> {
        match self {
            LinkKindView::Link { href } => href,
            LinkKindView::Mention { href, .. } => href,
            LinkKindView::Hashtag { href, .. } => href,
        }
    }
}

impl DeepView for Link {
    type V = LinkKindView;

    open spec fn deep_view(&self) -> LinkKindView {
        LinkKindView::Link { href: self.href@ }
    }
}

impl DeepView for Mention {
    type V = LinkKindView;

    open spec fn deep_view(&self) -> LinkKindView {
        LinkKindView::Mention { href: self.href@, host: self.host@, user: self.user@ }
    }
}

impl DeepView for Hashtag {
    type V = LinkKindView;

    open spec fn deep_view(&self) -> LinkKindView {
        LinkKindView::Hashtag { href: self.href@, tag: self.tag@ }
    }
}

impl DeepView for LinkKind {
    type V = LinkKindView;

    open spec fn deep_view(&self) -> LinkKindView {
        match self {
            LinkKind::Link(link) => link.deep_view(),
            LinkKind::Mention(mention) => mention.deep_view(),
            LinkKind::Hashtag(hashtag) => hashtag.deep_view(),
        }
    }
}

impl Clone for Link {
    fn clone(&self) -> (copy: Self)
        ensures
            copy == *self,
    {
        Link { href: self.href.clone() }
    }
}

impl Clone for Mention {
    fn clone(&self) -> (copy: Self)
        ensures
            copy == *self,
    {
        Mention { href: self.href.clone(), host: self.host.clone(), user: self.user.clone() }
    }
}

impl Clone for Hashtag {
    fn clone(&self) -> (copy: Self)
        ensures
            copy == *self,
    {
        Hashtag { href: self.href.clone(), tag: self.tag.clone() }
    }
}

impl Clone for LinkKind {
    fn clone(&self) -> (copy: Self)
        ensures
            copy == *self,
    {
        match self {
            LinkKind::Link(link) => LinkKind::Link(link.clone()),
            LinkKind::Mention(mention) => LinkKind::Mention(mention.clone()),
            LinkKind::Hashtag(hashtag) => LinkKind::Hashtag(hashtag.clone()),
        }
    }
}

} // verus!
