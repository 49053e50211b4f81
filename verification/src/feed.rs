//! The canonical feed: one model for every source format, and the choice of
//! the source to read.

use vstd::prelude::*;
use crate::error::{AppError, AppErrorView, ParseFault};
use crate::text::{clone_tags, clone_text, same_tags, same_text};
use crate::web_url::{clone_url, same_url, url_parts, UrlView, WebUrl};

verus! {

/// The candidate source URLs of an actor's feed. Any of them may be absent.
#[derive(Debug)]
pub struct FeedDescriptor {
    pub json: Option<String>,
    pub atom: Option<String>,
    pub rss: Option<String>,
}

/// The two document formats that a feed can be read from. Atom and RSS are both
/// read as XML.
#[derive(Clone, Copy, Debug, PartialEq, Eq, Structural)]
pub enum FeedFormat {
    Json,
    Xml,
}

/// The one source that is fetched for a feed, and the format to read it in.
#[derive(Debug)]
pub struct FeedRequest {
    pub format: FeedFormat,
    pub url: WebUrl,
}

/// The mathematical value of a [`FeedDescriptor`].
pub struct FeedSources {
    pub json: Option<Seq<char>>,
    pub atom: Option<Seq<char>>,
    pub rss: Option<Seq<char>>,
}

impl FeedSources {
    /// Whether no URL is present.
    pub open spec fn is_empty(self) -> bool {
        self.json is None && self.atom is None && self.rss is None
    }

    /// The source of highest priority that is present: JSON Feed before Atom,
    /// Atom before RSS.
    pub open spec fn chosen(self) -> Option<(FeedFormat, Seq<char>)> {
        if let Some(url) = self.json {
            Some((FeedFormat::Json, url))
        } else if let Some(url) = self.atom {
            Some((FeedFormat::Xml, url))
        } else if let Some(url) = self.rss {
            Some((FeedFormat::Xml, url))
        } else {
            None
        }
    }
}

impl View for FeedDescriptor {
    type V = FeedSources;

    open spec fn view(&self) -> FeedSources {
        FeedSources {
            json: self.json.deep_view(),
            atom: self.atom.deep_view(),
            rss: self.rss.deep_view(),
        }
    }
}

impl FeedDescriptor {
    /// Whether no URL is present.
    pub fn is_empty(&self) -> (empty: bool)
        ensures
            empty == self@.is_empty(),
    {
        self.json.is_none() && self.atom.is_none() && self.rss.is_none()
    }
}

/// One entry of a feed, whatever format it was read from. Entries are matched
/// across polls by `id` alone.
#[derive(Debug)]
pub struct JsonUserFeedItem {
    pub id: String,
    pub url: Option<WebUrl>,
    pub title: Option<String>,
    pub summary: Option<String>,
    pub language: Option<String>,
    pub tags: Vec<Option<String>>,
    pub date_published: Option<String>,
    pub date_modified: Option<String>,
}

/// The mathematical value of a [`JsonUserFeedItem`].
pub struct ItemView {
    pub id: Seq<char>,
    pub url: Option<UrlView>,
    pub title: Option<Seq<char>>,
    pub summary: Option<Seq<char>>,
    pub language: Option<Seq<char>>,
    pub tags: Seq<Option<Seq<char>>>,
    pub date_published: Option<Seq<char>>,
    pub date_modified: Option<Seq<char>>,
}

impl View for JsonUserFeedItem {
    type V = ItemView;

    open spec fn view(&self) -> ItemView {
        ItemView {
            id: self.id@,
            url: self.url.deep_view(),
            title: self.title.deep_view(),
            summary: self.summary.deep_view(),
            language: self.language.deep_view(),
            tags: self.tags.deep_view(),
            date_published: self.date_published.deep_view(),
            date_modified: self.date_modified.deep_view(),
        }
    }
}

impl DeepView for JsonUserFeedItem {
    type V = ItemView;

    open spec fn deep_view(&self) -> ItemView {
        self@
    }
}

impl Clone for JsonUserFeedItem {
    fn clone(&self) -> (copy: JsonUserFeedItem)
        ensures
            copy@ == self@,
    {
        JsonUserFeedItem {
            id: self.id.clone(),
            url: clone_url(&self.url),
            title: clone_text(&self.title),
            summary: clone_text(&self.summary),
            language: clone_text(&self.language),
            tags: clone_tags(&self.tags),
            date_published: clone_text(&self.date_published),
            date_modified: clone_text(&self.date_modified),
        }
    }
}

impl JsonUserFeedItem {
    /// Whether two entries agree in every field.
    pub fn same(&self, other: &JsonUserFeedItem) -> (same: bool)
        ensures
            same == (self@ == other@),
    {
        self.id == other.id && same_url(&self.url, &other.url) && same_text(
            &self.title,
            &other.title,
        ) && same_text(&self.summary, &other.summary) && same_text(
            &self.language,
            &other.language,
        ) && same_tags(&self.tags, &other.tags) && same_text(
            &self.date_published,
            &other.date_published,
        ) && same_text(&self.date_modified, &other.date_modified)
    }
}

/// A copy of a list of entries, in the same order.
pub fn clone_items(items: &Vec<JsonUserFeedItem>) -> (copy: Vec<JsonUserFeedItem>)
    ensures
        copy.deep_view() == items.deep_view(),
{
    let mut copy: Vec<JsonUserFeedItem> = Vec::new();
    let mut i: usize = 0;
    while i < items.len()
        invariant
            i <= items.len(),
            copy.len() == i,
            forall|j: int| 0 <= j < i ==> copy[j]@ == items[j]@,
        decreases items.len() - i,
    {
        copy.push(items[i].clone());
        i += 1;
    }
    assert(copy.deep_view() =~= items.deep_view());
    copy
}

/// Whether two lists hold the same entries in the same order.
pub fn same_items(a: &Vec<JsonUserFeedItem>, b: &Vec<JsonUserFeedItem>) -> (same: bool)
    ensures
        same == (a.deep_view() == b.deep_view()),
{
    if a.len() != b.len() {
        assert(a.deep_view().len() != b.deep_view().len());
        return false;
    }
    let mut i: usize = 0;
    while i < a.len()
        invariant
            i <= a.len(),
            a.len() == b.len(),
            forall|j: int| 0 <= j < i ==> a[j]@ == b[j]@,
        decreases a.len() - i,
    {
        if !a[i].same(&b[i]) {
            assert(a.deep_view()[i as int] != b.deep_view()[i as int]);
            return false;
        }
        i += 1;
    }
    assert(a.deep_view() =~= b.deep_view());
    true
}

/// A feed in canonical form. The title is always present; the entries stand in
/// the order in which the source gave them.
#[derive(Debug)]
pub struct JsonUserFeed {
    pub feed_url: WebUrl,
    pub next_url: Option<WebUrl>,
    pub title: String,
    pub description: Option<String>,
    pub icon: Option<WebUrl>,
    pub language: Option<String>,
    pub items: Vec<JsonUserFeedItem>,
}

/// The mathematical value of a [`JsonUserFeed`].
pub struct FeedView {
    pub feed_url: UrlView,
    pub next_url: Option<UrlView>,
    pub title: Seq<char>,
    pub description: Option<Seq<char>>,
    pub icon: Option<UrlView>,
    pub language: Option<Seq<char>>,
    pub items: Seq<ItemView>,
}

impl View for JsonUserFeed {
    type V = FeedView;

    open spec fn view(&self) -> FeedView {
        FeedView {
            feed_url: self.feed_url@,
            next_url: self.next_url.deep_view(),
            title: self.title@,
            description: self.description.deep_view(),
            icon: self.icon.deep_view(),
            language: self.language.deep_view(),
            items: self.items.deep_view(),
        }
    }
}

impl DeepView for JsonUserFeed {
    type V = FeedView;

    open spec fn deep_view(&self) -> FeedView {
        self@
    }
}

impl Clone for JsonUserFeed {
    fn clone(&self) -> (copy: JsonUserFeed)
        ensures
            copy@ == self@,
    {
        JsonUserFeed {
            feed_url: self.feed_url.clone(),
            next_url: clone_url(&self.next_url),
            title: self.title.clone(),
            description: clone_text(&self.description),
            icon: clone_url(&self.icon),
            language: clone_text(&self.language),
            items: clone_items(&self.items),
        }
    }
}

/// The request that `get_feed` owes for the given sources and actor name.
pub open spec fn feed_request(sources: FeedSources, name: Seq<char>) -> Result<
    (FeedFormat, UrlView),
    AppErrorView,
> {
    match sources.chosen() {
        None => Err(AppErrorView::NotFound { kind: "Feed Url"@, name }),
        Some((format, text)) => match url_parts(text) {
            Some(url) => Ok((format, url)),
            None => Err(AppErrorView::Parse(ParseFault::Url)),
        },
    }
}

impl JsonUserFeed {
    /// Chooses the source to fetch for a feed: the JSON Feed URL if there is one,
    /// else the Atom URL, else the RSS URL. A lower source is never tried in place
    /// of a higher one, also where the higher one is no URL.
    ///
    /// With no URL at all the result is `NotFound("Feed Url", name)`, and so
    /// nothing is there to be fetched.
    pub fn get_feed(feed: FeedDescriptor, name: &str) -> (request: Result<FeedRequest, AppError>)
        ensures
            match request {
                Ok(r) => feed_request(feed@, name@) == Ok::<_, AppErrorView>((r.format, r.url@)),
                Err(e) => feed_request(feed@, name@) == Err::<(FeedFormat, UrlView), _>(e@),
            },
            feed@.is_empty() <==> (request matches Err(e) && e@ == (AppErrorView::NotFound {
                kind: "Feed Url"@,
                name: name@,
            })),
            feed@.json matches Some(json) ==> match request {
                Ok(r) => r.format == FeedFormat::Json && url_parts(json) == Some(r.url@),
                Err(e) => url_parts(json) is None && e@ == AppErrorView::Parse(ParseFault::Url),
            },
    {
        let (format, text) = match feed {
            FeedDescriptor { json: Some(url), .. } => (FeedFormat::Json, url),
            FeedDescriptor { atom: Some(url), .. } => (FeedFormat::Xml, url),
            FeedDescriptor { rss: Some(url), .. } => (FeedFormat::Xml, url),
            FeedDescriptor { json: None, atom: None, rss: None } => {
                return Err(AppError::not_found("Feed Url", name));
            },
        };
        match WebUrl::parse(text.as_str()) {
            Ok(url) => Ok(FeedRequest { format, url }),
            Err(e) => Err(e),
        }
    }
}

} // verus!
