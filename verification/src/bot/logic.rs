//! The subscription service: validates the URL, then runs one atomic unit of
//! work against the storage collaborator — upsert the chat, upsert the feed,
//! reject a duplicate pair, enforce the per-chat cap of three subscriptions,
//! and insert the subscription row. Any failure inside the unit of work rolls
//! it back, so an error never leaves rows behind.

use vstd::prelude::*;

use crate::db::{
    ChatModel, FeedModel, NewTelegramChat, NewTelegramSubscription, Storage, StorageError,
    StorageModel,
};
use crate::models::telegram_subscription::{SubscriptionModel, TelegramSubscription};
use crate::sync::rss_reader::{FeedError, RawChannel, ReadRSS};

verus! {

/// Why a subscription could not be created.
#[derive(Debug, Clone, Copy, PartialEq, Eq, Structural)]
pub enum SubscriptionError {
    /// A storage-layer failure, wrapping the underlying cause.
    DbError(StorageError),
    /// The URL string is not syntactically a URL.
    InvalidRssUrl,
    /// The URL does not serve a parseable feed document.
    UrlIsNotRss,
    /// No URL was given.
    RssUrlNotProvided,
    /// The chat already subscribes to this feed.
    SubscriptionAlreadyExists,
    /// The chat already owns the maximum of three subscriptions.
    SubscriptionCountLimit,
    /// Reserved for failures of the chat-platform collaborator.
    TelegramError,
}

impl From<StorageError> for SubscriptionError {
    fn from(error: StorageError) -> Self {
        SubscriptionError::DbError(error)
    }
}

impl vstd::std_specs::convert::FromSpecImpl<StorageError> for SubscriptionError {
    open spec fn obeys_from_spec() -> bool {
        true
    }

    open spec fn from_spec(error: StorageError) -> SubscriptionError {
        SubscriptionError::DbError(error)
    }
}

/// Whether the `url` crate accepts `s` as a syntactically valid URL.
pub uninterp spec fn url_accepts(s: Seq<char>) -> bool;

/// Relies on `url::Url::parse`: acceptance depends on the characters of the
/// input alone.
#[verifier::external_body]
fn parse_url_ok(rss_url: &str) -> (r: bool)
    ensures
        r == url_accepts(rss_url@),
{
    url::Url::parse(rss_url).is_ok()
}

/// Maps a feed source's result onto the validator's outcome: a fetched and
/// parsed channel passes, any failure is `UrlIsNotRss`.
pub fn check_feed_fetch(fetched: Result<RawChannel, FeedError>) -> (r: Result<
    (),
    SubscriptionError,
>)
    ensures
        r is Ok <==> fetched is Ok,
        fetched is Err ==> r == Err::<(), SubscriptionError>(SubscriptionError::UrlIsNotRss),
{
    match fetched {
        Ok(_) => Ok(()),
        Err(_) => Err(SubscriptionError::UrlIsNotRss),
    }
}

/// Validates a URL: first its syntax, then — only if it parses — whether it
/// serves a parseable feed document, by fetching it through the feed source.
fn validate_rss_url<R: ReadRSS>(rss_reader: &R, rss_url: &str) -> (r: Result<
    (),
    SubscriptionError,
>)
    ensures
        !url_accepts(rss_url@) <==> r == Err::<(), SubscriptionError>(
            SubscriptionError::InvalidRssUrl,
        ),
        url_accepts(rss_url@) ==> r is Ok || r == Err::<(), SubscriptionError>(
            SubscriptionError::UrlIsNotRss,
        ),
{
    if parse_url_ok(rss_url) {
        check_feed_fetch(rss_reader.read_rss(rss_url))
    } else {
        Err(SubscriptionError::InvalidRssUrl)
    }
}

fn check_if_subscription_exists(connection: &Storage, subscription: NewTelegramSubscription) -> (r:
    Result<(), SubscriptionError>)
    requires
        connection@.wf(),
    ensures
        r is Ok <==> !connection@.has_subscription(
            subscription.chat_id as int,
            subscription.feed_id as int,
        ),
        r is Err ==> r == Err::<(), SubscriptionError>(SubscriptionError::SubscriptionAlreadyExists),
{
    match connection.find_subscription(subscription) {
        None => Ok(()),
        Some(_) => Err(SubscriptionError::SubscriptionAlreadyExists),
    }
}

fn check_number_of_subscriptions(connection: &Storage, chat_id: i64) -> (r: Result<
    (),
    SubscriptionError,
>)
    ensures
        r is Ok <==> connection@.subscription_count(chat_id as int) < 3,
        r is Err ==> r == Err::<(), SubscriptionError>(SubscriptionError::SubscriptionCountLimit),
{
    match connection.count_subscriptions_for_chat(chat_id) {
        0 | 1 | 2 => Ok(()),
        _ => Err(SubscriptionError::SubscriptionCountLimit),
    }
}

/// The rows a successful unit of work leaves behind: the chat upserted from
/// the descriptor, the feed upserted under `url` (a fresh internal id where
/// the URL was unseen), and exactly one new subscription row for the pair,
/// stamped with the store's clock.
pub open spec fn subscription_success(
    pre: StorageModel,
    post: StorageModel,
    chat: ChatModel,
    url: Seq<char>,
    s: SubscriptionModel,
) -> bool {
    let fid = if pre.has_feed_link(url) {
        pre.feed_for_link(url).id
    } else {
        pre.next_feed_id
    };
    &&& s.chat_id == chat.id
    &&& s.feed_id == fid
    &&& s.created_at == pre.now
    &&& s.updated_at == pre.now
    &&& post.chats == (if pre.has_chat(chat.id) {
        pre.chats
    } else {
        pre.chats.push(chat)
    })
    &&& post.feeds == (if pre.has_feed_link(url) {
        pre.feeds
    } else {
        pre.feeds.push(FeedModel { id: pre.next_feed_id, link: url })
    })
    &&& post.subscriptions == pre.subscriptions.push(s)
    &&& post.next_feed_id == (if pre.has_feed_link(url) {
        pre.next_feed_id
    } else {
        pre.next_feed_id + 1
    })
    &&& post.now == pre.now
}

/// What one unit of work does to the store, given the validated URL: a
/// duplicate pair is rejected first, then the cap of three subscriptions per
/// chat; otherwise the subscription is created. Rejections leave the store
/// exactly as it was.
pub open spec fn transaction_outcome(
    pre: StorageModel,
    post: StorageModel,
    chat: ChatModel,
    url: Seq<char>,
    r: Result<TelegramSubscription, SubscriptionError>,
) -> bool {
    if pre.subscribed_to_link(chat.id, url) {
        &&& r == Err::<TelegramSubscription, SubscriptionError>(
            SubscriptionError::SubscriptionAlreadyExists,
        )
        &&& post == pre
    } else if pre.subscription_count(chat.id) >= 3 {
        &&& r == Err::<TelegramSubscription, SubscriptionError>(
            SubscriptionError::SubscriptionCountLimit,
        )
        &&& post == pre
    } else {
        r matches Ok(s) && subscription_success(pre, post, chat, url, s@)
    }
}

/// One atomic unit of work: upsert the chat, upsert the feed, check for a
/// duplicate pair, check the cap, insert the row. A failed check rolls the
/// store back to the checkpoint, so nothing the unit of work added survives.
fn subscription_transaction(db: &mut Storage, new_chat: NewTelegramChat, url: String) -> (r: Result<
    TelegramSubscription,
    SubscriptionError,
>)
    requires
        old(db)@.wf(),
        old(db)@.next_feed_id < i64::MAX,
    ensures
        final(db)@.wf(),
        transaction_outcome(old(db)@, final(db)@, new_chat@, url@, r),
{
    let ghost pre = db@;
    let mark = db.checkpoint();
    let chat = db.create_or_get_chat(new_chat);
    let feed = db.create_or_get_feed(url);
    let ghost mid = db@;
    proof {
        assert(mid.subscriptions == pre.subscriptions);
        // a fresh feed id cannot be referenced by any existing subscription
        if !pre.has_feed_link(feed@.link) {
            assert forall|i: int|
                0 <= i < pre.subscriptions.len() implies pre.subscriptions[i].feed_id
                != pre.next_feed_id by {
                assert(pre.has_feed(pre.subscriptions[i].feed_id));
                let w = choose|w: int|
                    0 <= w < pre.feeds.len() && pre.feeds[w].id == pre.subscriptions[i].feed_id;
                assert(pre.feeds[w].id < pre.next_feed_id);
            }
        }
    }
    let new_telegram_subscription = NewTelegramSubscription {
        chat_id: chat.id,
        feed_id: feed.id,
    };
    proof {
        // the duplicate check over the pair coincides with membership by URL
        assert(mid.has_subscription(chat@.id, feed@.id) == pre.subscribed_to_link(
            new_chat@.id,
            url@,
        ));
    }
    match check_if_subscription_exists(db, new_telegram_subscription) {
        Err(e) => {
            db.rollback(mark);
            proof {
                lemma_rollback_restores(pre, mid, db@, new_chat@, url@);
            }
            return Err(e);
        },
        Ok(()) => {},
    }
    match check_number_of_subscriptions(db, chat.id) {
        Err(e) => {
            db.rollback(mark);
            proof {
                assert(mid.subscription_count(new_chat@.id) == pre.subscription_count(
                    new_chat@.id,
                ));
                lemma_rollback_restores(pre, mid, db@, new_chat@, url@);
            }
            return Err(e);
        },
        Ok(()) => {},
    }
    let s = db.create_subscription(new_telegram_subscription);
    proof {
        assert(db@.chats == mid.chats);
        assert(db@.feeds == mid.feeds);
        assert(subscription_success(pre, db@, new_chat@, url@, s@));
    }
    Ok(s)
}

/// After the upserts only appended rows, rolling back to the pre-state's row
/// counts restores the pre-state exactly.
proof fn lemma_rollback_restores(
    pre: StorageModel,
    mid: StorageModel,
    post: StorageModel,
    chat: ChatModel,
    url: Seq<char>,
)
    requires
        mid.chats == pre.chats || mid.chats == pre.chats.push(chat),
        mid.feeds == pre.feeds || mid.feeds == pre.feeds.push(
            FeedModel { id: pre.next_feed_id, link: url },
        ),
        mid.subscriptions == pre.subscriptions,
        mid.now == pre.now,
        post.chats == mid.chats.subrange(0, pre.chats.len() as int),
        post.feeds == mid.feeds.subrange(0, pre.feeds.len() as int),
        post.subscriptions == mid.subscriptions.subrange(0, pre.subscriptions.len() as int),
        post.next_feed_id == pre.next_feed_id,
        post.now == mid.now,
    ensures
        post == pre,
{
    if mid.chats == pre.chats.push(chat) {
        assert(pre.chats.push(chat).subrange(0, pre.chats.len() as int) =~= pre.chats);
    } else {
        assert(pre.chats.subrange(0, pre.chats.len() as int) =~= pre.chats);
    }
    if mid.feeds == pre.feeds.push(FeedModel { id: pre.next_feed_id, link: url }) {
        assert(pre.feeds.push(FeedModel { id: pre.next_feed_id, link: url }).subrange(
            0,
            pre.feeds.len() as int,
        ) =~= pre.feeds);
    } else {
        assert(pre.feeds.subrange(0, pre.feeds.len() as int) =~= pre.feeds);
    }
    assert(pre.subscriptions.subrange(0, pre.subscriptions.len() as int) =~= pre.subscriptions);
    assert(post =~= pre);
}

/// Creates a subscription linking the chat to the feed behind `rss_url`.
///
/// A missing URL, a syntactically invalid URL, and a URL that does not serve
/// a parseable feed are rejected before any storage access. Otherwise one
/// atomic unit of work upserts the chat and the feed, rejects a duplicate
/// pair, enforces the cap of three subscriptions per chat, and inserts the
/// subscription row; on any rejection the store is left exactly as it was.
pub fn create_subscription<R: ReadRSS>(
    db: &mut Storage,
    rss_reader: &R,
    new_chat: NewTelegramChat,
    rss_url: Option<String>,
) -> (r: Result<TelegramSubscription, SubscriptionError>)
    requires
        old(db)@.wf(),
        old(db)@.next_feed_id < i64::MAX,
    ensures
        final(db)@.wf(),
        r is Err ==> final(db)@ == old(db)@,
        rss_url is None <==> r == Err::<TelegramSubscription, SubscriptionError>(
            SubscriptionError::RssUrlNotProvided,
        ),
        (rss_url matches Some(u) && !url_accepts(u@)) <==> r == Err::<
            TelegramSubscription,
            SubscriptionError,
        >(SubscriptionError::InvalidRssUrl),
        rss_url matches Some(u) ==> (url_accepts(u@) ==> (r == Err::<
            TelegramSubscription,
            SubscriptionError,
        >(SubscriptionError::UrlIsNotRss) || transaction_outcome(
            old(db)@,
            final(db)@,
            new_chat@,
            u@,
            r,
        ))),
        r matches Ok(s) ==> rss_url matches Some(u) && url_accepts(u@) && transaction_outcome(
            old(db)@,
            final(db)@,
            new_chat@,
            u@,
            r,
        ) && s@.chat_id == new_chat@.id && final(db)@.has_chat(new_chat@.id) && final(db)@.has_feed(s@.feed_id) && final(db)@.has_subscription(s@.chat_id, s@.feed_id) && final(db)@.subscription_count(new_chat@.id) == old(db)@.subscription_count(new_chat@.id) + 1,
{
    match rss_url {
        None => Err(SubscriptionError::RssUrlNotProvided),
        Some(url) => {
            match validate_rss_url(rss_reader, url.as_str()) {
                Err(e) => Err(e),
                Ok(()) => {
                    let ghost pre = db@;
                    let r = subscription_transaction(db, new_chat, url);
                    proof {
                        if r is Ok {
                            let s = r->Ok_0;
                            lemma_success_facts(pre, db@, new_chat@, url@, s@);
                        }
                    }
                    r
                },
            }
        },
    }
}

/// Chat identity is idempotent across subscriptions: two successful calls
/// with the same chat descriptor — whatever the two URLs — yield
/// subscriptions owned by that one chat, and the second call adds no chat
/// row.
pub proof fn lemma_chat_identity_reused(
    pre: StorageModel,
    mid: StorageModel,
    post: StorageModel,
    chat: ChatModel,
    url1: Seq<char>,
    url2: Seq<char>,
    s1: SubscriptionModel,
    s2: SubscriptionModel,
)
    requires
        pre.wf(),
        subscription_success(pre, mid, chat, url1, s1),
        subscription_success(mid, post, chat, url2, s2),
    ensures
        s1.chat_id == chat.id,
        s2.chat_id == chat.id,
        s1.chat_id == s2.chat_id,
        post.chats == mid.chats,
{
    // after the first success the chat row exists, so the second adds none
    if pre.has_chat(chat.id) {
        let w = choose|i: int| 0 <= i < pre.chats.len() && pre.chats[i].id == chat.id;
        assert(mid.chats[w].id == chat.id);
    } else {
        assert(mid.chats[pre.chats.len() as int].id == chat.id);
    }
    assert(mid.has_chat(chat.id));
}

/// Creating the same subscription twice: after the first success, repeating
/// the unit of work for the same chat and URL is rejected as a duplicate,
/// leaves the store untouched, and exactly one row for the pair exists.
pub proof fn lemma_duplicate_rejected(
    pre: StorageModel,
    mid: StorageModel,
    post: StorageModel,
    chat: ChatModel,
    url: Seq<char>,
    s1: SubscriptionModel,
    r2: Result<TelegramSubscription, SubscriptionError>,
)
    requires
        pre.wf(),
        mid.wf(),
        subscription_success(pre, mid, chat, url, s1),
        transaction_outcome(mid, post, chat, url, r2),
    ensures
        r2 == Err::<TelegramSubscription, SubscriptionError>(
            SubscriptionError::SubscriptionAlreadyExists,
        ),
        post == mid,
        crate::db::count_for_pair(mid.subscriptions, s1.chat_id, s1.feed_id) == 1,
{
    let n = pre.subscriptions.len() as int;
    assert(mid.subscriptions[n] == s1);
    // the feed row behind `url` exists in the mid state and carries s1's feed id
    if pre.has_feed_link(url) {
        let w = choose|i: int| 0 <= i < pre.feeds.len() && pre.feeds[i].link == url;
        assert(pre.feeds[w] == pre.feed_for_link(url));
        assert(mid.feeds[w].link == url);
        let v = choose|i: int| 0 <= i < mid.feeds.len() && mid.feeds[i].link == url;
        assert(v == w);
        assert(mid.feed_for_link(url).id == s1.feed_id);
    } else {
        let m = pre.feeds.len() as int;
        assert(mid.feeds[m].link == url);
        let v = choose|i: int| 0 <= i < mid.feeds.len() && mid.feeds[i].link == url;
        if v < m {
            assert(pre.feeds[v] == mid.feeds[v]);
            assert(pre.has_feed_link(url));
        }
        assert(v == m);
        assert(mid.feed_for_link(url).id == s1.feed_id);
    }
    assert(mid.has_subscription(chat.id, s1.feed_id));
    assert(mid.subscribed_to_link(chat.id, url));
    crate::db::lemma_pair_count_unique(mid.subscriptions, s1.chat_id, s1.feed_id);
}

/// A chat at the cap: where the chat already owns three or more
/// subscriptions and asks for a feed it is not yet subscribed to, the unit
/// of work is rejected with the limit error, the store is untouched, and the
/// chat's count is unchanged.
pub proof fn lemma_subscription_limit(
    pre: StorageModel,
    post: StorageModel,
    chat: ChatModel,
    url: Seq<char>,
    r: Result<TelegramSubscription, SubscriptionError>,
)
    requires
        pre.wf(),
        !pre.subscribed_to_link(chat.id, url),
        pre.subscription_count(chat.id) >= 3,
        transaction_outcome(pre, post, chat, url, r),
    ensures
        r == Err::<TelegramSubscription, SubscriptionError>(
            SubscriptionError::SubscriptionCountLimit,
        ),
        post == pre,
        post.subscription_count(chat.id) == pre.subscription_count(chat.id),
{
}

/// The cap is an invariant: where no chat owns more than three
/// subscriptions before a unit of work, none does afterwards either.
pub proof fn lemma_cap_preserved(
    pre: StorageModel,
    post: StorageModel,
    chat: ChatModel,
    url: Seq<char>,
    r: Result<TelegramSubscription, SubscriptionError>,
)
    requires
        pre.wf(),
        forall|c: int| #[trigger] pre.subscription_count(c) <= 3,
        transaction_outcome(pre, post, chat, url, r),
    ensures
        forall|c: int| #[trigger] post.subscription_count(c) <= 3,
{
    if !pre.subscribed_to_link(chat.id, url) && pre.subscription_count(chat.id) < 3 {
        let s = r->Ok_0;
        assert forall|c: int| #[trigger] post.subscription_count(c) <= 3 by {
            crate::db::lemma_count_push(pre.subscriptions, s@, c);
            assert(pre.subscription_count(c) <= 3);
        }
    }
}

/// What a successful unit of work guarantees about the resulting store: the
/// chat, the feed and the new pair are present, and the chat's subscription
/// count went up by exactly one.
proof fn lemma_success_facts(
    pre: StorageModel,
    post: StorageModel,
    chat: ChatModel,
    url: Seq<char>,
    s: SubscriptionModel,
)
    requires
        pre.wf(),
        subscription_success(pre, post, chat, url, s),
    ensures
        post.has_chat(chat.id),
        post.has_feed(s.feed_id),
        post.has_subscription(s.chat_id, s.feed_id),
        post.subscription_count(chat.id) == pre.subscription_count(chat.id) + 1,
{
    // the chat row: already present, or the one just pushed
    if pre.has_chat(chat.id) {
        let w = choose|w: int| 0 <= w < pre.chats.len() && pre.chats[w].id == chat.id;
        assert(post.chats[w].id == chat.id);
    } else {
        assert(post.chats[pre.chats.len() as int].id == chat.id);
    }
    // the feed row: the one chosen by URL, or the one just pushed
    if pre.has_feed_link(url) {
        let w = choose|i: int| 0 <= i < pre.feeds.len() && pre.feeds[i].link == url;
        assert(pre.feeds[w] == pre.feed_for_link(url));
        assert(post.feeds[w].id == s.feed_id);
    } else {
        assert(post.feeds[pre.feeds.len() as int].id == s.feed_id);
    }
    // the subscription row just pushed
    assert(post.subscriptions[pre.subscriptions.len() as int] == s);
    crate::db::lemma_count_push(pre.subscriptions, s, chat.id);
}

} // verus!

