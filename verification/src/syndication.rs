//! Syndication documents: the parts of a parsed document that the canonical
//! feed is made from, and the rules that make it. What is read from a body is
//! an Atom document; an RSS document has no identifier that could become the
//! feed's URL, and is refused before it is read.

use vstd::prelude::*;
use crate::error::{AppError, AppErrorView, ParseFault};
use crate::feed::{FeedView, ItemView, JsonUserFeed, JsonUserFeedItem};
use crate::readable::{is_readable, readable};
use crate::text::clone_text;
use crate::web_url::{optional_parts, parse_optional, unreadable, url_parts, WebUrl};

verus! {

/// `feed_rs::model::Feed`, a document as `feed_rs` has parsed it. The engine
/// copies out of it what it needs.
#[verifier::external_type_specification]
#[verifier::external_body]
pub struct ExParsedDocument(feed_rs::model::Feed);

/// `feed_rs::model::Entry`, an entry of such a document.
#[verifier::external_type_specification]
#[verifier::external_body]
pub struct ExParsedEntry(feed_rs::model::Entry);

/// `feed_rs::parser::ParseFeedError`, the error of `feed_rs::parser::parse`.
/// Only its presence is looked at.
#[verifier::external_type_specification]
#[verifier::external_body]
pub struct ExParseFeedError(feed_rs::parser::ParseFeedError);

/// A point in time: whole seconds since 1970-01-01T00:00:00Z, not counting leap
/// seconds, and the nanoseconds since that second began. Within a leap second
/// the nanoseconds go on beyond 999,999,999.
#[derive(Clone, Copy, Debug, PartialEq, Eq, Structural)]
pub struct Instant {
    pub secs: i64,
    pub nanos: u32,
}

/// A category of an entry: its machine term, and the label to show for it where
/// the source gave one.
#[derive(Debug)]
pub struct SyndicationCategory {
    pub term: String,
    pub label: Option<String>,
}

/// An entry of an Atom or RSS document.
#[derive(Debug)]
pub struct SyndicationEntry {
    pub id: String,
    pub title: Option<String>,
    pub summary: Option<String>,
    pub categories: Vec<SyndicationCategory>,
    pub published: Option<Instant>,
    pub updated: Option<Instant>,
}

/// An Atom or RSS document.
#[derive(Debug)]
pub struct SyndicationFeed {
    pub id: String,
    pub title: Option<String>,
    pub description: Option<String>,
    pub icon: Option<String>,
    pub language: Option<String>,
    pub entries: Vec<SyndicationEntry>,
}

/// The mathematical value of a [`SyndicationCategory`].
pub struct CategoryView {
    pub term: Seq<char>,
    pub label: Option<Seq<char>>,
}

/// The mathematical value of a [`SyndicationEntry`].
pub struct EntryView {
    pub id: Seq<char>,
    pub title: Option<Seq<char>>,
    pub summary: Option<Seq<char>>,
    pub categories: Seq<CategoryView>,
    pub published: Option<Instant>,
    pub updated: Option<Instant>,
}

/// The mathematical value of a [`SyndicationFeed`].
pub struct DocumentView {
    pub id: Seq<char>,
    pub title: Option<Seq<char>>,
    pub description: Option<Seq<char>>,
    pub icon: Option<Seq<char>>,
    pub language: Option<Seq<char>>,
    pub entries: Seq<EntryView>,
}

impl View for SyndicationCategory {
    type V = CategoryView;

    open spec fn view(&self) -> CategoryView {
        CategoryView { term: self.term@, label: self.label.deep_view() }
    }
}

impl DeepView for SyndicationCategory {
    type V = CategoryView;

    open spec fn deep_view(&self) -> CategoryView {
        self@
    }
}

impl View for SyndicationEntry {
    type V = EntryView;

    open spec fn view(&self) -> EntryView {
        EntryView {
            id: self.id@,
            title: self.title.deep_view(),
            summary: self.summary.deep_view(),
            categories: self.categories.deep_view(),
            published: self.published,
            updated: self.updated,
        }
    }
}

impl DeepView for SyndicationEntry {
    type V = EntryView;

    open spec fn deep_view(&self) -> EntryView {
        self@
    }
}

impl View for SyndicationFeed {
    type V = DocumentView;

    open spec fn view(&self) -> DocumentView {
        DocumentView {
            id: self.id@,
            title: self.title.deep_view(),
            description: self.description.deep_view(),
            icon: self.icon.deep_view(),
            language: self.language.deep_view(),
            entries: self.entries.deep_view(),
        }
    }
}

/// What `chrono` writes for the instant that `DateTime::from_timestamp` makes
/// of the two numbers, with `DateTime::to_rfc3339_opts`, whole seconds and `Z`
/// for UTC, as in `2024-01-15T10:30:00Z`; `None` where `from_timestamp`
/// makes no instant of them.
pub uninterp spec fn rfc3339_text(secs: i64, nanos: u32) -> Option<Seq<char>>;

/// Calls `feed_rs::parser::parse` on the bytes of the body.
///
/// The body has to be `readable`: plainly an Atom document in UTF-8 that does
/// not name the Media RSS namespace. On other bodies the parser can end the
/// process: where it reads the duration of an iTunes element or the times of
/// Media RSS elements (`parser::util::parse_npt`), and where it takes the
/// contact texts of RSS apart (`parser::util::parse_person_name_email`). The
/// first is reached from RSS items and under the Media RSS namespace, the
/// second from RSS documents only.
///
/// Nothing is stated of the result: the parser gives an entry or a feed without
/// an identifier a made-up one, which may differ from call to call.
#[verifier::external_body]
fn read_document(body: &str) -> Result<feed_rs::model::Feed, feed_rs::parser::ParseFeedError>
    requires
        readable(body@),
{
    feed_rs::parser::parse(body.as_bytes())
}

/// Hands out the `entries` of a document that `feed_rs` has parsed.
#[verifier::external_body]
fn document_entries(doc: &feed_rs::model::Feed) -> &Vec<feed_rs::model::Entry> {
    &doc.entries
}

/// Copies out of an entry that `feed_rs` has parsed the fields that a canonical
/// item is made from: title and summary by their `content`, each category by its
/// `term` and `label`, both instants by `DateTime::timestamp` and
/// `DateTime::timestamp_subsec_nanos`.
#[verifier::external_body]
fn entry_model(entry: &feed_rs::model::Entry) -> SyndicationEntry {
    let at = |t: &chrono::DateTime<chrono::Utc>| {
        Instant { secs: t.timestamp(), nanos: t.timestamp_subsec_nanos() }
    };
    let tag = |c: &feed_rs::model::Category| {
        SyndicationCategory { term: c.term.clone(), label: c.label.clone() }
    };
    SyndicationEntry {
        id: entry.id.clone(),
        title: entry.title.as_ref().map(|t| t.content.clone()),
        summary: entry.summary.as_ref().map(|t| t.content.clone()),
        categories: entry.categories.iter().map(tag).collect(),
        published: entry.published.as_ref().map(at),
        updated: entry.updated.as_ref().map(at),
    }
}

/// Copies out of a document that `feed_rs` has parsed the fields that a
/// canonical feed is made from, title and description by their `content` and the
/// icon by its `uri`, and puts the given entries beside them.
#[verifier::external_body]
fn document_model(doc: &feed_rs::model::Feed, entries: Vec<SyndicationEntry>) -> SyndicationFeed {
    SyndicationFeed {
        id: doc.id.clone(),
        title: doc.title.as_ref().map(|t| t.content.clone()),
        description: doc.description.as_ref().map(|t| t.content.clone()),
        icon: doc.icon.as_ref().map(|i| i.uri.clone()),
        language: doc.language.clone(),
        entries,
    }
}

/// Makes the instant with `chrono::DateTime::from_timestamp` and writes it with
/// `DateTime::to_rfc3339_opts(SecondsFormat::Secs, true)`. The contract names the
/// text `rfc3339_text` of the two numbers.
#[verifier::external_body]
fn write_rfc3339(at: Instant) -> (text: Option<String>)
    ensures
        text.deep_view() == rfc3339_text(at.secs, at.nanos),
{
    match chrono::DateTime::from_timestamp(at.secs, at.nanos) {
        Some(t) => Some(t.to_rfc3339_opts(chrono::SecondsFormat::Secs, true)),
        None => None,
    }
}

/// The tag for a category: its label, or its term where it has no label.
pub open spec fn tag_of(category: CategoryView) -> Option<Seq<char>> {
    match category.label {
        Some(label) => Some(label),
        None => Some(category.term),
    }
}

/// The canonical text of an optional instant.
pub open spec fn date_text(at: Option<Instant>) -> Option<Seq<char>> {
    match at {
        Some(t) => rfc3339_text(t.secs, t.nanos),
        None => None,
    }
}

/// Whether an instant is present and has no canonical text.
pub open spec fn undatable(at: Option<Instant>) -> bool {
    match at {
        Some(t) => rfc3339_text(t.secs, t.nanos) is None,
        None => false,
    }
}

/// Whether both instants of an entry, as far as they are present, have a
/// canonical text.
pub open spec fn datable(entry: EntryView) -> bool {
    !undatable(entry.published) && !undatable(entry.updated)
}

/// The canonical item for an entry. The item's URL and language stay unset.
pub open spec fn item_of(entry: EntryView) -> ItemView {
    ItemView {
        id: entry.id,
        url: None,
        title: entry.title,
        summary: entry.summary,
        language: None,
        tags: entry.categories.map_values(|c: CategoryView| tag_of(c)),
        date_published: date_text(entry.published),
        date_modified: date_text(entry.updated),
    }
}

/// The canonical feed for a document, or the reason why there is none.
///
/// The document's identifier has to be a URL and becomes the feed's URL; the
/// title is mandatory; an icon, if present, has to be a URL; every instant has
/// to have a canonical text.
pub open spec fn canonical_feed(doc: DocumentView) -> Result<FeedView, AppErrorView> {
    if exists|i: int| 0 <= i < doc.entries.len() && !datable(#[trigger] doc.entries[i]) {
        Err(AppErrorView::Parse(ParseFault::Timestamp))
    } else if url_parts(doc.id) is None {
        Err(AppErrorView::Parse(ParseFault::Url))
    } else if doc.title is None {
        Err(AppErrorView::Parse(ParseFault::Title))
    } else if unreadable(doc.icon) {
        Err(AppErrorView::Parse(ParseFault::Url))
    } else {
        Ok(
            FeedView {
                feed_url: url_parts(doc.id)->0,
                next_url: None,
                title: doc.title->0,
                description: doc.description,
                icon: optional_parts(doc.icon),
                language: doc.language,
                items: doc.entries.map_values(|e: EntryView| item_of(e)),
            },
        )
    }
}

/// A document without a title has no canonical feed: it is refused with a
/// parse error, whatever else it holds.
pub proof fn lemma_untitled_feed_is_refused(doc: DocumentView)
    requires
        doc.title is None,
    ensures
        canonical_feed(doc) matches Err(e) && e is Parse,
{
}

/// A category without a label is shown by its term, and one with a label by its
/// label, whatever the term.
pub proof fn lemma_tag_falls_back_to_term(term: Seq<char>, label: Seq<char>)
    ensures
        tag_of(CategoryView { term, label: None }) == Some(term),
        tag_of(CategoryView { term, label: Some(label) }) == Some(label),
{
}

/// The tags for the categories of an entry, in their order.
fn tags_from(categories: &Vec<SyndicationCategory>) -> (tags: Vec<Option<String>>)
    ensures
        tags.deep_view() == categories.deep_view().map_values(|c: CategoryView| tag_of(c)),
{
    let mut tags: Vec<Option<String>> = Vec::new();
    let mut i: usize = 0;
    while i < categories.len()
        invariant
            i <= categories.len(),
            tags.len() == i,
            forall|j: int| 0 <= j < i ==> tags[j].deep_view() == tag_of(categories[j]@),
        decreases categories.len() - i,
    {
        let category = &categories[i];
        let tag = match &category.label {
            Some(label) => label.clone(),
            None => category.term.clone(),
        };
        tags.push(Some(tag));
        i += 1;
    }
    assert(tags.deep_view() =~= categories.deep_view().map_values(|c: CategoryView| tag_of(c)));
    tags
}

/// The canonical text of an optional instant, or `Parse(Timestamp)` where the
/// instant has none.
fn date_from(at: Option<Instant>) -> (text: Result<Option<String>, AppError>)
    ensures
        match text {
            Ok(t) => !undatable(at) && t.deep_view() == date_text(at),
            Err(e) => undatable(at) && e@ == AppErrorView::Parse(ParseFault::Timestamp),
        },
{
    match at {
        None => Ok(None),
        Some(t) => match write_rfc3339(t) {
            Some(text) => Ok(Some(text)),
            None => Err(AppError::Parse(ParseFault::Timestamp)),
        },
    }
}

impl JsonUserFeedItem {
    /// The canonical item for an entry of an Atom or RSS document: identifier,
    /// title and summary as they are, one tag for each category, and both
    /// instants in canonical text. Fails with `Parse(Timestamp)` exactly where an
    /// instant has no such text.
    pub fn from_entry(entry: &SyndicationEntry) -> (item: Result<JsonUserFeedItem, AppError>)
        ensures
            match item {
                Ok(i) => datable(entry@) && i@ == item_of(entry@),
                Err(e) => !datable(entry@) && e@ == AppErrorView::Parse(ParseFault::Timestamp),
            },
    {
        let date_published = match date_from(entry.published) {
            Ok(text) => text,
            Err(e) => {
                return Err(e);
            },
        };
        let date_modified = match date_from(entry.updated) {
            Ok(text) => text,
            Err(e) => {
                return Err(e);
            },
        };
        Ok(
            JsonUserFeedItem {
                id: entry.id.clone(),
                url: None,
                title: clone_text(&entry.title),
                summary: clone_text(&entry.summary),
                language: None,
                tags: tags_from(&entry.categories),
                date_published,
                date_modified,
            },
        )
    }
}

impl JsonUserFeed {
    /// The canonical feed for an Atom or RSS document: `canonical_feed` of it.
    pub fn from_syndication(doc: &SyndicationFeed) -> (feed: Result<JsonUserFeed, AppError>)
        ensures
            match feed {
                Ok(f) => canonical_feed(doc@) == Ok::<_, AppErrorView>(f@),
                Err(e) => canonical_feed(doc@) == Err::<FeedView, _>(e@),
            },
            doc@.title is None ==> (feed matches Err(e) && e@ is Parse),
    {
        let mut items: Vec<JsonUserFeedItem> = Vec::new();
        let mut i: usize = 0;
        while i < doc.entries.len()
            invariant
                i <= doc.entries.len(),
                items.len() == i,
                forall|j: int| 0 <= j < i ==> datable(#[trigger] doc.entries[j]@),
                forall|j: int| 0 <= j < i ==> items[j]@ == item_of(doc.entries[j]@),
            decreases doc.entries.len() - i,
        {
            match JsonUserFeedItem::from_entry(&doc.entries[i]) {
                Ok(item) => {
                    items.push(item);
                },
                Err(e) => {
                    assert(!datable(doc@.entries[i as int]));
                    return Err(e);
                },
            }
            i += 1;
        }
        assert(items.deep_view() =~= doc@.entries.map_values(|e: EntryView| item_of(e)));
        assert forall|j: int| 0 <= j < doc@.entries.len() implies datable(
            #[trigger] doc@.entries[j],
        ) by {
            assert(datable(doc.entries[j]@));
        }
        let feed_url = match WebUrl::parse(doc.id.as_str()) {
            Ok(url) => url,
            Err(e) => {
                return Err(e);
            },
        };
        let title = match &doc.title {
            Some(title) => title.clone(),
            None => {
                return Err(AppError::Parse(ParseFault::Title));
            },
        };
        let icon = match parse_optional(&doc.icon) {
            Ok(icon) => icon,
            Err(e) => {
                return Err(e);
            },
        };
        Ok(
            JsonUserFeed {
                feed_url,
                next_url: None,
                title,
                description: clone_text(&doc.description),
                icon,
                language: clone_text(&doc.language),
                items,
            },
        )
    }

    /// Reads an Atom document from the body of a response and puts it in
    /// canonical form.
    ///
    /// A body that is not `readable` is not read at all and gives
    /// `Parse(Document)`: among these is every RSS document, which has no
    /// identifier of its own and so could not become a canonical feed in any
    /// case. A readable body that is no document gives `Parse(Document)` too.
    /// Any other result is `from_syndication` of the document that was read.
    pub fn parse_xml_feed(body: &str) -> (feed: Result<JsonUserFeed, AppError>)
        ensures
            !readable(body@) ==> (feed matches Err(e) && e@ == AppErrorView::Parse(
                ParseFault::Document,
            )),
            match feed {
                Ok(f) => readable(body@) && exists|doc: DocumentView|
                    canonical_feed(doc) == Ok::<_, AppErrorView>(f@),
                Err(e) => e@ == AppErrorView::Parse(ParseFault::Document) || exists|
                    doc: DocumentView,
                | canonical_feed(doc) == Err::<FeedView, _>(e@),
            },
    {
        if !is_readable(body) {
            return Err(AppError::Parse(ParseFault::Document));
        }
        match read_document(body) {
            Ok(parsed) => {
                let sources = document_entries(&parsed);
                let mut entries: Vec<SyndicationEntry> = Vec::new();
                let mut i: usize = 0;
                while i < sources.len()
                    invariant
                        i <= sources.len(),
                    decreases sources.len() - i,
                {
                    entries.push(entry_model(&sources[i]));
                    i += 1;
                }
                let doc = document_model(&parsed, entries);
                JsonUserFeed::from_syndication(&doc)
            },
            Err(_) => Err(AppError::Parse(ParseFault::Document)),
        }
    }
}

} // verus!
