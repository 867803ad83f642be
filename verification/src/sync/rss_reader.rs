//! Reading feeds: the raw channel representation a feed source hands back,
//! the internal feed model, and the normalization between the two. Fetching
//! the document is a pluggable capability (`ReadRSS`), so test doubles can
//! stand in for the network; parsing and normalization are done here.

use vstd::prelude::*;

use crate::db::opt_text;

verus! {

/// Why a feed could not be read or normalized.
#[derive(Debug, Clone, Copy, PartialEq, Eq, Structural)]
pub enum FeedError {
    /// The document could not be retrieved.
    Fetch,
    /// The document is not a parseable feed.
    NotAFeed,
    /// An item's publication date is missing or is not an RFC2822 date.
    InvalidPubDate,
}

/// Mathematical view of one raw feed item.
#[verifier::ext_equal]
pub struct RawItemModel {
    pub title: Option<Seq<char>>,
    pub description: Option<Seq<char>>,
    pub link: Option<Seq<char>>,
    pub author: Option<Seq<char>>,
    pub guid: Option<Seq<char>>,
    pub pub_date: Option<Seq<char>>,
}

/// Mathematical view of a raw channel.
#[verifier::ext_equal]
pub struct RawChannelModel {
    pub title: Seq<char>,
    pub link: Seq<char>,
    pub description: Seq<char>,
    pub items: Seq<RawItemModel>,
}

/// One item of a raw channel as a feed document carries it: every field is
/// text, and every field but the channel-level ones may be absent. The
/// publication date is kept as its source string.
#[derive(Debug, Clone, PartialEq)]
pub struct RawItem {
    pub title: Option<String>,
    pub description: Option<String>,
    pub link: Option<String>,
    pub author: Option<String>,
    pub guid: Option<String>,
    pub pub_date: Option<String>,
}

impl View for RawItem {
    type V = RawItemModel;

    open spec fn view(&self) -> RawItemModel {
        RawItemModel {
            title: opt_text(self.title),
            description: opt_text(self.description),
            link: opt_text(self.link),
            author: opt_text(self.author),
            guid: opt_text(self.guid),
            pub_date: opt_text(self.pub_date),
        }
    }
}

/// A raw channel as retrieved and parsed by a feed source: feed-level title,
/// link and description, and the item list in document order.
#[derive(Debug, Clone, PartialEq)]
pub struct RawChannel {
    pub title: String,
    pub link: String,
    pub description: String,
    pub items: Vec<RawItem>,
}

impl View for RawChannel {
    type V = RawChannelModel;

    open spec fn view(&self) -> RawChannelModel {
        RawChannelModel {
            title: self.title@,
            link: self.link@,
            description: self.description@,
            items: self.items@.map_values(|it: RawItem| it@),
        }
    }
}

/// Mathematical view of one normalized feed item.
#[verifier::ext_equal]
pub struct FetchedFeedItemModel {
    pub title: Option<Seq<char>>,
    pub description: Option<Seq<char>>,
    pub link: Option<Seq<char>>,
    pub author: Option<Seq<char>>,
    pub guid: Option<Seq<char>>,
    pub publication_date: int,
}

/// Mathematical view of a normalized feed.
#[verifier::ext_equal]
pub struct FetchedFeedModel {
    pub title: Seq<char>,
    pub link: Seq<char>,
    pub description: Seq<char>,
    pub items: Seq<FetchedFeedItemModel>,
}

/// One normalized feed item: the optional text fields carried through as
/// present-or-absent, and the mandatory publication date as a timezone-aware
/// instant in seconds since the Unix epoch.
#[derive(Debug, Clone, PartialEq)]
pub struct FetchedFeedItem {
    pub title: Option<String>,
    pub description: Option<String>,
    pub link: Option<String>,
    pub author: Option<String>,
    pub guid: Option<String>,
    pub publication_date: i64,
}

impl View for FetchedFeedItem {
    type V = FetchedFeedItemModel;

    open spec fn view(&self) -> FetchedFeedItemModel {
        FetchedFeedItemModel {
            title: opt_text(self.title),
            description: opt_text(self.description),
            link: opt_text(self.link),
            author: opt_text(self.author),
            guid: opt_text(self.guid),
            publication_date: self.publication_date as int,
        }
    }
}

/// A normalized feed: the internal model of a fetched feed document.
#[derive(Debug, Clone, PartialEq)]
pub struct FetchedFeed {
    pub title: String,
    pub link: String,
    pub description: String,
    pub items: Vec<FetchedFeedItem>,
}

impl View for FetchedFeed {
    type V = FetchedFeedModel;

    open spec fn view(&self) -> FetchedFeedModel {
        FetchedFeedModel {
            title: self.title@,
            link: self.link@,
            description: self.description@,
            items: self.items@.map_values(|it: FetchedFeedItem| it@),
        }
    }
}

/// The feed-source capability: retrieve the document behind `url` and parse
/// it into a raw channel, failing on network errors or an unparseable body.
/// Implementations may do blocking I/O; test doubles answer with canned
/// channels.
pub trait ReadRSS {
    fn read_rss(&self, url: &str) -> Result<RawChannel, FeedError>;
}

/// The instant, in seconds since the Unix epoch, that an RFC2822 date string
/// denotes; `None` where the string is not an RFC2822 date.
pub uninterp spec fn rfc2822_parse(s: Seq<char>) -> Option<i64>;

/// Relies on `chrono::DateTime::parse_from_rfc2822`: the parse depends on the
/// characters of the input alone; `timestamp` renders the parsed instant as
/// seconds since the Unix epoch.
#[verifier::external_body]
fn parse_rfc2822(s: &str) -> (r: Option<i64>)
    ensures
        r == rfc2822_parse(s@),
{
    match chrono::DateTime::parse_from_rfc2822(s) {
        Ok(dt) => Some(dt.timestamp()),
        Err(_) => None,
    }
}

/// Whether the `rss` crate parses `s` as a feed document.
pub uninterp spec fn rss_accepts(s: Seq<char>) -> bool;

/// The raw channel the `rss` crate parses out of `s`; meaningful only where
/// `rss_accepts(s)` holds.
pub uninterp spec fn rss_channel_of(s: Seq<char>) -> RawChannelModel;

/// Relies on `rss::Channel::read_from`: whether a document parses, and what
/// channel it parses to, depend on its characters alone. The body only moves
/// the parsed channel's fields into the library's raw-channel representation.
#[verifier::external_body]
fn parse_channel(xml: &str) -> (r: Result<RawChannel, FeedError>)
    ensures
        r is Ok <==> rss_accepts(xml@),
        r matches Ok(c) ==> c@ == rss_channel_of(xml@),
        r matches Err(e) ==> e == FeedError::NotAFeed,
{
    match rss::Channel::read_from(xml.as_bytes()) {
        Ok(ch) => Ok(RawChannel {
            title: ch.title, link: ch.link, description: ch.description,
            items: ch.items.into_iter().map(|i| RawItem {
                title: i.title, description: i.description, link: i.link,
                author: i.author, guid: i.guid.map(|g| g.value), pub_date: i.pub_date,
            }).collect(),
        }),
        Err(_) => Err(FeedError::NotAFeed),
    }
}

/// The item's publication date is present and is an RFC2822 date.
pub open spec fn item_datable(raw: RawItemModel) -> bool {
    raw.pub_date matches Some(d) && rfc2822_parse(d) is Some
}

/// Every item of the raw channel carries a parseable publication date.
pub open spec fn raw_dates_ok(raw: RawChannelModel) -> bool {
    forall|j: int| 0 <= j < raw.items.len() ==> item_datable(#[trigger] raw.items[j])
}

/// The normalized item carries the raw item's optional fields through
/// unchanged and its publication date parsed from the RFC2822 source string.
pub open spec fn item_normalized(raw: RawItemModel, it: FetchedFeedItemModel) -> bool {
    &&& it.title == raw.title
    &&& it.description == raw.description
    &&& it.link == raw.link
    &&& it.author == raw.author
    &&& it.guid == raw.guid
    &&& raw.pub_date matches Some(d) && rfc2822_parse(d) matches Some(t) && it.publication_date
        == t as int
}

/// The normalized feed copies the channel-level fields verbatim and carries
/// one normalized item per raw item, in source order.
pub open spec fn feed_normalized(raw: RawChannelModel, f: FetchedFeedModel) -> bool {
    &&& f.title == raw.title
    &&& f.link == raw.link
    &&& f.description == raw.description
    &&& f.items.len() == raw.items.len()
    &&& forall|j: int| 0 <= j < raw.items.len() ==> item_normalized(
        raw.items[j],
        #[trigger] f.items[j],
    )
}

impl FetchedFeed {
    /// Normalizes a raw channel: feed-level title, link and description are
    /// copied verbatim; each item's optional fields carry through as
    /// present-or-absent; the mandatory publication date is parsed from its
    /// RFC2822 source string. A missing or malformed date on any item rejects
    /// the whole channel.
    pub fn from_raw(raw: &RawChannel) -> (r: Result<FetchedFeed, FeedError>)
        ensures
            r is Ok <==> raw_dates_ok(raw@),
            r matches Ok(f) ==> feed_normalized(raw@, f@),
            r matches Err(e) ==> e == FeedError::InvalidPubDate,
    {
        let mut fetched: Vec<FetchedFeedItem> = Vec::new();
        let mut i: usize = 0;
        while i < raw.items.len()
            invariant
                i <= raw.items@.len(),
                raw@.items.len() == raw.items@.len(),
                fetched@.len() == i,
                forall|j: int|
                    0 <= j < i ==> item_normalized(raw@.items[j], #[trigger] fetched@[j]@),
            decreases raw.items@.len() - i,
        {
            let item = &raw.items[i];
            proof {
                assert(raw@.items[i as int] == raw.items@[i as int]@);
            }
            let ts: i64 = match &item.pub_date {
                Some(d) => {
                    match parse_rfc2822(d.as_str()) {
                        Some(t) => t,
                        None => {
                            proof {
                                assert(!item_datable(raw@.items[i as int]));
                            }
                            return Err(FeedError::InvalidPubDate);
                        },
                    }
                },
                None => {
                    proof {
                        assert(!item_datable(raw@.items[i as int]));
                    }
                    return Err(FeedError::InvalidPubDate);
                },
            };
            let fetched_item = FetchedFeedItem {
                title: clone_opt_text(&item.title),
                description: clone_opt_text(&item.description),
                link: clone_opt_text(&item.link),
                author: clone_opt_text(&item.author),
                guid: clone_opt_text(&item.guid),
                publication_date: ts,
            };
            proof {
                assert(item_normalized(raw@.items[i as int], fetched_item@));
            }
            fetched.push(fetched_item);
            i += 1;
        }
        let result = FetchedFeed {
            title: raw.title.clone(),
            link: raw.link.clone(),
            description: raw.description.clone(),
            items: fetched,
        };
        proof {
            assert(result@.items.len() == raw@.items.len());
            assert forall|j: int| 0 <= j < raw@.items.len() implies item_datable(
                #[trigger] raw@.items[j],
            ) by {
                assert(item_normalized(raw@.items[j], fetched@[j]@));
            }
            assert(feed_normalized(raw@, result@));
        }
        Ok(result)
    }
}

fn clone_opt_text(o: &Option<String>) -> (r: Option<String>)
    ensures
        opt_text(r) == opt_text(*o),
{
    match o {
        Option::Some(s) => Option::Some(s.clone()),
        Option::None => Option::None,
    }
}

/// Parses a feed document into the raw channel representation: the verified
/// face of the parse, for every transport that has fetched a body.
pub fn parse_feed_document(xml: &str) -> (r: Result<RawChannel, FeedError>)
    ensures
        r is Ok <==> rss_accepts(xml@),
        r matches Ok(c) ==> c@ == rss_channel_of(xml@),
        r matches Err(e) ==> e == FeedError::NotAFeed,
{
    parse_channel(xml)
}

/// Parses a feed document and normalizes it: the computing half of a feed
/// source's work, shared by every transport. The result is the normalization
/// of exactly the channel parsed out of `xml`.
pub fn read_feed_from_xml(xml: &str) -> (r: Result<FetchedFeed, FeedError>)
    ensures
        r is Ok <==> rss_accepts(xml@) && raw_dates_ok(rss_channel_of(xml@)),
        r matches Ok(f) ==> feed_normalized(rss_channel_of(xml@), f@),
        !rss_accepts(xml@) ==> r == Err::<FetchedFeed, FeedError>(FeedError::NotAFeed),
        rss_accepts(xml@) && !raw_dates_ok(rss_channel_of(xml@)) ==> r == Err::<
            FetchedFeed,
            FeedError,
        >(FeedError::InvalidPubDate),
{
    match parse_channel(xml) {
        Ok(raw) => FetchedFeed::from_raw(&raw),
        Err(e) => Err(e),
    }
}

} // verus!
