//! JSON Feed documents: the decoded body of a response, and the check that
//! turns it into a canonical feed.

use vstd::prelude::*;
use crate::error::{AppError, AppErrorView, ParseFault};
use crate::feed::{FeedView, ItemView, JsonUserFeed, JsonUserFeedItem};
use crate::text::{clone_tags, clone_text};
use crate::web_url::{optional_parts, parse_optional, unreadable, url_parts, WebUrl};

verus! {

/// An entry of a decoded JSON Feed document. URLs are still texts.
#[derive(Debug)]
pub struct JsonFeedItemDocument {
    pub id: String,
    pub url: Option<String>,
    pub title: Option<String>,
    pub summary: Option<String>,
    pub language: Option<String>,
    pub tags: Vec<Option<String>>,
    pub date_published: Option<String>,
    pub date_modified: Option<String>,
}

/// A decoded JSON Feed document, with every field as the body gave it: the
/// title and the feed's own URL may be missing, and URLs are still texts.
#[derive(Debug)]
pub struct JsonFeedDocument {
    pub feed_url: Option<String>,
    pub next_url: Option<String>,
    pub title: Option<String>,
    pub description: Option<String>,
    pub icon: Option<String>,
    pub language: Option<String>,
    pub items: Vec<JsonFeedItemDocument>,
}

/// The mathematical value of a [`JsonFeedItemDocument`].
pub struct ItemDocumentView {
    pub id: Seq<char>,
    pub url: Option<Seq<char>>,
    pub title: Option<Seq<char>>,
    pub summary: Option<Seq<char>>,
    pub language: Option<Seq<char>>,
    pub tags: Seq<Option<Seq<char>>>,
    pub date_published: Option<Seq<char>>,
    pub date_modified: Option<Seq<char>>,
}

/// The mathematical value of a [`JsonFeedDocument`].
pub struct FeedDocumentView {
    pub feed_url: Option<Seq<char>>,
    pub next_url: Option<Seq<char>>,
    pub title: Option<Seq<char>>,
    pub description: Option<Seq<char>>,
    pub icon: Option<Seq<char>>,
    pub language: Option<Seq<char>>,
    pub items: Seq<ItemDocumentView>,
}

impl View for JsonFeedItemDocument {
    type V = ItemDocumentView;

    open spec fn view(&self) -> ItemDocumentView {
        ItemDocumentView {
            id: self.id@,
            url: self.url.deep_view(),
            title: self.title.deep_view(),
            summary: self.summary.deep_view(),
            language: self.language.deep_view(),
            tags: self.tags.deep_view(),
            date_published: self.date_published.deep_view(),
            date_modified: self.date_modified.deep_view(),
        }
    }
}

impl DeepView for JsonFeedItemDocument {
    type V = ItemDocumentView;

    open spec fn deep_view(&self) -> ItemDocumentView {
        self@
    }
}

impl View for JsonFeedDocument {
    type V = FeedDocumentView;

    open spec fn view(&self) -> FeedDocumentView {
        FeedDocumentView {
            feed_url: self.feed_url.deep_view(),
            next_url: self.next_url.deep_view(),
            title: self.title.deep_view(),
            description: self.description.deep_view(),
            icon: self.icon.deep_view(),
            language: self.language.deep_view(),
            items: self.items.deep_view(),
        }
    }
}

/// The canonical item for an entry of a document whose URL, if present, is one.
pub open spec fn decoded_item(item: ItemDocumentView) -> ItemView {
    ItemView {
        id: item.id,
        url: optional_parts(item.url),
        title: item.title,
        summary: item.summary,
        language: item.language,
        tags: item.tags,
        date_published: item.date_published,
        date_modified: item.date_modified,
    }
}

impl FeedDocumentView {
    /// Whether every text that has to be a URL is one: the feed's own URL, which
    /// has to be present, and the next page, the icon and each entry's URL as far
    /// as they are present.
    pub open spec fn urls_readable(self) -> bool {
        &&& self.feed_url is Some
        &&& url_parts(self.feed_url->0) is Some
        &&& !unreadable(self.next_url)
        &&& !unreadable(self.icon)
        &&& forall|i: int| 0 <= i < self.items.len() ==> !unreadable(#[trigger] self.items[i].url)
    }

    /// Whether the document has the shape of a canonical feed: a title, and URLs
    /// where URLs belong.
    pub open spec fn canonical(self) -> bool {
        self.title is Some && self.urls_readable()
    }
}

/// The canonical feed for a decoded document, or the reason why there is none:
/// `Parse(Title)` for a document without a title, else `Parse(Url)` for one in
/// which a URL is missing or is none.
pub open spec fn decoded_feed(doc: FeedDocumentView) -> Result<FeedView, AppErrorView> {
    if doc.title is None {
        Err(AppErrorView::Parse(ParseFault::Title))
    } else if !doc.urls_readable() {
        Err(AppErrorView::Parse(ParseFault::Url))
    } else {
        Ok(
            FeedView {
                feed_url: url_parts(doc.feed_url->0)->0,
                next_url: optional_parts(doc.next_url),
                title: doc.title->0,
                description: doc.description,
                icon: optional_parts(doc.icon),
                language: doc.language,
                items: doc.items.map_values(|i: ItemDocumentView| decoded_item(i)),
            },
        )
    }
}

/// A document in canonical shape is decoded to the feed that holds, field for
/// field and entry for entry, what the document holds; each URL is the one that
/// its text is read as.
pub proof fn lemma_canonical_document_decodes_as_it_stands(doc: FeedDocumentView)
    requires
        doc.canonical(),
    ensures
        decoded_feed(doc) matches Ok(feed) && {
            &&& Some(feed.feed_url) == url_parts(doc.feed_url->0)
            &&& feed.next_url == optional_parts(doc.next_url)
            &&& Some(feed.title) == doc.title
            &&& feed.description == doc.description
            &&& feed.icon == optional_parts(doc.icon)
            &&& feed.language == doc.language
            &&& feed.items.len() == doc.items.len()
            &&& forall|i: int|
                0 <= i < doc.items.len() ==> {
                    &&& (#[trigger] feed.items[i]).id == doc.items[i].id
                    &&& feed.items[i].url == optional_parts(doc.items[i].url)
                    &&& feed.items[i].title == doc.items[i].title
                    &&& feed.items[i].summary == doc.items[i].summary
                    &&& feed.items[i].language == doc.items[i].language
                    &&& feed.items[i].tags == doc.items[i].tags
                    &&& feed.items[i].date_published == doc.items[i].date_published
                    &&& feed.items[i].date_modified == doc.items[i].date_modified
                }
        },
{
}

/// A document without a title has no canonical feed, whatever else it holds.
pub proof fn lemma_untitled_document_is_refused(doc: FeedDocumentView)
    requires
        doc.title is None,
    ensures
        decoded_feed(doc) == Err::<FeedView, _>(AppErrorView::Parse(ParseFault::Title)),
{
}

impl JsonUserFeedItem {
    /// The canonical item for an entry of a decoded document, or `Parse(Url)`
    /// where the entry's URL is present and is none.
    pub fn from_document(item: &JsonFeedItemDocument) -> (read: Result<JsonUserFeedItem, AppError>)
        ensures
            match read {
                Ok(i) => !unreadable(item@.url) && i@ == decoded_item(item@),
                Err(e) => unreadable(item@.url) && e@ == AppErrorView::Parse(ParseFault::Url),
            },
    {
        let url = match parse_optional(&item.url) {
            Ok(url) => url,
            Err(e) => {
                return Err(e);
            },
        };
        Ok(
            JsonUserFeedItem {
                id: item.id.clone(),
                url,
                title: clone_text(&item.title),
                summary: clone_text(&item.summary),
                language: clone_text(&item.language),
                tags: clone_tags(&item.tags),
                date_published: clone_text(&item.date_published),
                date_modified: clone_text(&item.date_modified),
            },
        )
    }
}

impl JsonUserFeed {
    /// Turns a decoded JSON Feed document into a canonical feed:
    /// `decoded_feed` of it.
    ///
    /// A document without a title is refused with `Parse(Title)`; no feed with an
    /// empty title is made of it.
    pub fn parse_json_feed(document: &JsonFeedDocument) -> (feed: Result<JsonUserFeed, AppError>)
        ensures
            match feed {
                Ok(f) => decoded_feed(document@) == Ok::<_, AppErrorView>(f@),
                Err(e) => decoded_feed(document@) == Err::<FeedView, _>(e@),
            },
            document@.title is None <==> (feed matches Err(e) && e@ == AppErrorView::Parse(
                ParseFault::Title,
            )),
    {
        let title = match &document.title {
            Some(title) => title.clone(),
            None => {
                return Err(AppError::Parse(ParseFault::Title));
            },
        };
        let feed_url = match &document.feed_url {
            Some(text) => match WebUrl::parse(text.as_str()) {
                Ok(url) => url,
                Err(e) => {
                    return Err(e);
                },
            },
            None => {
                return Err(AppError::Parse(ParseFault::Url));
            },
        };
        let next_url = match parse_optional(&document.next_url) {
            Ok(url) => url,
            Err(e) => {
                return Err(e);
            },
        };
        let icon = match parse_optional(&document.icon) {
            Ok(url) => url,
            Err(e) => {
                return Err(e);
            },
        };
        let mut items: Vec<JsonUserFeedItem> = Vec::new();
        let mut i: usize = 0;
        while i < document.items.len()
            invariant
                i <= document.items.len(),
                items.len() == i,
                document@.title is Some,
                forall|j: int| 0 <= j < i ==> !unreadable(#[trigger] document.items[j]@.url),
                forall|j: int| 0 <= j < i ==> items[j]@ == decoded_item(document.items[j]@),
            decreases document.items.len() - i,
        {
            match JsonUserFeedItem::from_document(&document.items[i]) {
                Ok(item) => {
                    items.push(item);
                },
                Err(e) => {
                    assert(unreadable(document@.items[i as int].url));
                    return Err(e);
                },
            }
            i += 1;
        }
        assert(items.deep_view() =~= document@.items.map_values(
            |i: ItemDocumentView| decoded_item(i),
        ));
        assert forall|j: int| 0 <= j < document@.items.len() implies !unreadable(
            #[trigger] document@.items[j].url,
        ) by {
            assert(!unreadable(document.items[j]@.url));
        }
        Ok(
            JsonUserFeed {
                feed_url,
                next_url,
                title,
                description: clone_text(&document.description),
                icon,
                language: clone_text(&document.language),
                items,
            },
        )
    }
}

} // verus!
