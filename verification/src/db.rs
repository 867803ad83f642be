//! The storage collaborator: an in-memory store of chat, feed and
//! subscription rows, handed explicitly into every operation. It offers the
//! repository operations the subscription service needs — upserts keyed by
//! natural keys, point lookups, a per-chat subscription count, the
//! subscription insert — and an explicit checkpoint/rollback pair with which
//! a caller scopes an atomic unit of work.

use vstd::prelude::*;

use crate::models::telegram_subscription::{SubscriptionModel, TelegramSubscription};

verus! {

/// Mathematical view of a chat row, and equally of a chat descriptor: the
/// stable external chat id, the chat kind, and the optional names.
#[verifier::ext_equal]
pub struct ChatModel {
    pub id: int,
    pub kind: Seq<char>,
    pub username: Option<Seq<char>>,
    pub first_name: Option<Seq<char>>,
    pub last_name: Option<Seq<char>>,
}

/// Mathematical view of a feed row: the internal feed id and the feed URL,
/// which is the row's unique natural key.
#[verifier::ext_equal]
pub struct FeedModel {
    pub id: int,
    pub link: Seq<char>,
}

/// Mathematical view of the whole store.
#[verifier::ext_equal]
pub struct StorageModel {
    pub chats: Seq<ChatModel>,
    pub feeds: Seq<FeedModel>,
    pub subscriptions: Seq<SubscriptionModel>,
    pub next_feed_id: int,
    pub now: int,
}

pub open spec fn opt_text(o: Option<String>) -> Option<Seq<char>> {
    match o {
        Option::Some(s) => Option::Some(s@),
        Option::None => Option::None,
    }
}

/// How many subscription rows in `s` belong to `chat_id`.
pub open spec fn count_for_chat(s: Seq<SubscriptionModel>, chat_id: int) -> nat
    decreases s.len(),
{
    if s.len() == 0 {
        0
    } else {
        count_for_chat(s.drop_last(), chat_id) + if s.last().chat_id == chat_id {
            1nat
        } else {
            0nat
        }
    }
}

impl StorageModel {
    pub open spec fn has_chat(self, id: int) -> bool {
        exists|i: int| 0 <= i < self.chats.len() && self.chats[i].id == id
    }

    pub open spec fn chat_for(self, id: int) -> ChatModel {
        self.chats[choose|i: int| 0 <= i < self.chats.len() && self.chats[i].id == id]
    }

    pub open spec fn has_feed(self, id: int) -> bool {
        exists|i: int| 0 <= i < self.feeds.len() && self.feeds[i].id == id
    }

    pub open spec fn feed_for(self, id: int) -> FeedModel {
        self.feeds[choose|i: int| 0 <= i < self.feeds.len() && self.feeds[i].id == id]
    }

    pub open spec fn has_feed_link(self, link: Seq<char>) -> bool {
        exists|i: int| 0 <= i < self.feeds.len() && self.feeds[i].link == link
    }

    pub open spec fn feed_for_link(self, link: Seq<char>) -> FeedModel {
        self.feeds[choose|i: int| 0 <= i < self.feeds.len() && self.feeds[i].link == link]
    }

    pub open spec fn has_subscription(self, chat_id: int, feed_id: int) -> bool {
        exists|i: int|
            0 <= i < self.subscriptions.len() && self.subscriptions[i].chat_id == chat_id
                && self.subscriptions[i].feed_id == feed_id
    }

    pub open spec fn subscription_for(self, chat_id: int, feed_id: int) -> SubscriptionModel {
        self.subscriptions[choose|i: int|
            0 <= i < self.subscriptions.len() && self.subscriptions[i].chat_id == chat_id
                && self.subscriptions[i].feed_id == feed_id]
    }

    pub open spec fn subscription_count(self, chat_id: int) -> nat {
        count_for_chat(self.subscriptions, chat_id)
    }

    /// The chat already owns a subscription to the feed behind `link`.
    pub open spec fn subscribed_to_link(self, chat_id: int, link: Seq<char>) -> bool {
        self.has_feed_link(link) && self.has_subscription(chat_id, self.feed_for_link(link).id)
    }

    pub open spec fn chat_ids_unique(self) -> bool {
        forall|i: int, j: int|
            0 <= i < j < self.chats.len() ==> self.chats[i].id != self.chats[j].id
    }

    pub open spec fn feed_ids_unique(self) -> bool {
        forall|i: int, j: int|
            0 <= i < j < self.feeds.len() ==> self.feeds[i].id != self.feeds[j].id
    }

    pub open spec fn feed_links_unique(self) -> bool {
        forall|i: int, j: int|
            0 <= i < j < self.feeds.len() ==> self.feeds[i].link != self.feeds[j].link
    }

    pub open spec fn feed_ids_bounded(self) -> bool {
        forall|i: int| 0 <= i < self.feeds.len() ==> self.feeds[i].id < self.next_feed_id
    }

    /// At most one subscription row per (chat, feed) pair.
    pub open spec fn subscription_pairs_unique(self) -> bool {
        forall|i: int, j: int|
            0 <= i < j < self.subscriptions.len() ==> !(self.subscriptions[i].chat_id
                == self.subscriptions[j].chat_id && self.subscriptions[i].feed_id
                == self.subscriptions[j].feed_id)
    }

    /// Every subscription row points at an existing chat and an existing feed.
    pub open spec fn subscriptions_reference_rows(self) -> bool {
        forall|i: int|
            #![trigger self.subscriptions[i]]
            0 <= i < self.subscriptions.len() ==> self.has_chat(self.subscriptions[i].chat_id)
                && self.has_feed(self.subscriptions[i].feed_id)
    }

    pub open spec fn wf(self) -> bool {
        &&& self.chat_ids_unique()
        &&& self.feed_ids_unique()
        &&& self.feed_links_unique()
        &&& self.feed_ids_bounded()
        &&& self.subscription_pairs_unique()
        &&& self.subscriptions_reference_rows()
    }
}

/// A chat descriptor as the host platform hands it in: the stable external
/// chat id, the chat kind, and the optional user and display names.
#[derive(Debug, Clone, PartialEq)]
pub struct NewTelegramChat {
    pub id: i64,
    pub kind: String,
    pub username: Option<String>,
    pub first_name: Option<String>,
    pub last_name: Option<String>,
}

impl View for NewTelegramChat {
    type V = ChatModel;

    open spec fn view(&self) -> ChatModel {
        ChatModel {
            id: self.id as int,
            kind: self.kind@,
            username: opt_text(self.username),
            first_name: opt_text(self.first_name),
            last_name: opt_text(self.last_name),
        }
    }
}

/// A stored chat row; created from the descriptor of the first subscription
/// attempt from that chat.
#[derive(Debug, Clone, PartialEq)]
pub struct TelegramChat {
    pub id: i64,
    pub kind: String,
    pub username: Option<String>,
    pub first_name: Option<String>,
    pub last_name: Option<String>,
}

impl View for TelegramChat {
    type V = ChatModel;

    open spec fn view(&self) -> ChatModel {
        ChatModel {
            id: self.id as int,
            kind: self.kind@,
            username: opt_text(self.username),
            first_name: opt_text(self.first_name),
            last_name: opt_text(self.last_name),
        }
    }
}

/// A stored feed row: internal id and the feed URL, its unique key.
#[derive(Debug, Clone, PartialEq)]
pub struct Feed {
    pub id: i64,
    pub link: String,
}

impl View for Feed {
    type V = FeedModel;

    open spec fn view(&self) -> FeedModel {
        FeedModel { id: self.id as int, link: self.link@ }
    }
}

/// The (chat, feed) pair a subscription insert or lookup is keyed by.
#[derive(Debug, Clone, Copy, PartialEq, Eq, Structural)]
pub struct NewTelegramSubscription {
    pub chat_id: i64,
    pub feed_id: i64,
}

/// A storage-layer failure; `SubscriptionError::DbError` wraps it opaquely.
#[derive(Debug, Clone, Copy, PartialEq, Eq, Structural)]
pub enum StorageError {
    Unavailable,
}

/// A mark taken at the start of a unit of work. Rows are only ever appended,
/// so rolling back to the mark discards exactly what the unit of work added.
#[derive(Debug, Clone, Copy, PartialEq, Eq, Structural)]
pub struct Checkpoint {
    pub n_chats: usize,
    pub n_feeds: usize,
    pub n_subscriptions: usize,
    pub next_feed_id: i64,
}

/// The in-memory store. Rows stand in insertion order; internal feed ids are
/// assigned from a counter that only grows.
pub struct Storage {
    chats: Vec<TelegramChat>,
    feeds: Vec<Feed>,
    subscriptions: Vec<TelegramSubscription>,
    next_feed_id: i64,
    now: i64,
}

impl View for Storage {
    type V = StorageModel;

    closed spec fn view(&self) -> StorageModel {
        StorageModel {
            chats: self.chats@.map_values(|c: TelegramChat| c@),
            feeds: self.feeds@.map_values(|f: Feed| f@),
            subscriptions: self.subscriptions@.map_values(|s: TelegramSubscription| s@),
            next_feed_id: self.next_feed_id as int,
            now: self.now as int,
        }
    }
}

fn clone_opt_string(o: &Option<String>) -> (r: Option<String>)
    ensures
        opt_text(r) == opt_text(*o),
{
    match o {
        Option::Some(s) => Option::Some(s.clone()),
        Option::None => Option::None,
    }
}

fn clone_chat(c: &TelegramChat) -> (r: TelegramChat)
    ensures
        r@ == c@,
{
    TelegramChat {
        id: c.id,
        kind: c.kind.clone(),
        username: clone_opt_string(&c.username),
        first_name: clone_opt_string(&c.first_name),
        last_name: clone_opt_string(&c.last_name),
    }
}

fn clone_feed(f: &Feed) -> (r: Feed)
    ensures
        r@ == f@,
{
    Feed { id: f.id, link: f.link.clone() }
}

impl Storage {
    /// A fresh, empty store whose clock reads `now` (seconds since the Unix
    /// epoch); internal feed ids start at 1.
    pub fn new(now: i64) -> (s: Storage)
        ensures
            s@.wf(),
            s@.chats.len() == 0,
            s@.feeds.len() == 0,
            s@.subscriptions.len() == 0,
            s@.next_feed_id == 1,
            s@.now == now as int,
    {
        let s = Storage {
            chats: Vec::new(),
            feeds: Vec::new(),
            subscriptions: Vec::new(),
            next_feed_id: 1,
            now,
        };
        proof {
            assert(s@.chats =~= Seq::<ChatModel>::empty());
            assert(s@.feeds =~= Seq::<FeedModel>::empty());
            assert(s@.subscriptions =~= Seq::<SubscriptionModel>::empty());
        }
        s
    }

    /// Moves the store's clock; new subscription rows are stamped with it.
    pub fn set_now(&mut self, now: i64)
        ensures
            final(self)@ == (StorageModel { now: now as int, ..old(self)@ }),
    {
        self.now = now;
    }

    /// Whether a fresh internal feed id can still be assigned.
    pub fn has_feed_capacity(&self) -> (b: bool)
        ensures
            b == (self@.next_feed_id < i64::MAX),
    {
        self.next_feed_id < i64::MAX
    }

    fn chat_index(&self, id: i64) -> (r: Option<usize>)
        ensures
            match r {
                Option::Some(i) => i < self@.chats.len() && self@.chats[i as int].id == id as int,
                Option::None => !self@.has_chat(id as int),
            },
    {
        let mut i: usize = 0;
        while i < self.chats.len()
            invariant
                i <= self@.chats.len(),
                self@.chats.len() == self.chats@.len(),
                forall|k: int| 0 <= k < i ==> self@.chats[k].id != id as int,
            decreases self.chats.len() - i,
        {
            if self.chats[i].id == id {
                return Option::Some(i);
            }
            i += 1;
        }
        Option::None
    }

    fn feed_index_by_link(&self, link: &String) -> (r: Option<usize>)
        ensures
            match r {
                Option::Some(i) => i < self@.feeds.len() && self@.feeds[i as int].link == link@,
                Option::None => !self@.has_feed_link(link@),
            },
    {
        let mut i: usize = 0;
        while i < self.feeds.len()
            invariant
                i <= self@.feeds.len(),
                self@.feeds.len() == self.feeds@.len(),
                forall|k: int| 0 <= k < i ==> self@.feeds[k].link != link@,
            decreases self.feeds.len() - i,
        {
            if self.feeds[i].link == *link {
                return Option::Some(i);
            }
            i += 1;
        }
        Option::None
    }

    /// Upsert keyed by the external chat id: returns the existing row where
    /// one carries `new_chat`'s id, else appends a row built from the
    /// descriptor and returns it.
    pub fn create_or_get_chat(&mut self, new_chat: NewTelegramChat) -> (chat: TelegramChat)
        requires
            old(self)@.wf(),
        ensures
            final(self)@.wf(),
            chat@.id == new_chat@.id,
            final(self)@.has_chat(new_chat@.id),
            old(self)@.has_chat(new_chat@.id) ==> final(self)@ == old(self)@ && chat@ == old(self)@.chat_for(new_chat@.id),
            !old(self)@.has_chat(new_chat@.id) ==> chat@ == new_chat@ && final(self)@ == (
            StorageModel { chats: old(self)@.chats.push(new_chat@), ..old(self)@ }),
            final(self)@.feeds == old(self)@.feeds,
            final(self)@.subscriptions == old(self)@.subscriptions,
            final(self)@.next_feed_id == old(self)@.next_feed_id,
            final(self)@.now == old(self)@.now,
    {
        match self.chat_index(new_chat.id) {
            Option::Some(i) => {
                let chat = clone_chat(&self.chats[i]);
                proof {
                    assert(self@.chats[i as int] == self.chats@[i as int]@);
                    assert(self@.chats[i as int].id == new_chat@.id);
                    let j = choose|j: int|
                        0 <= j < self@.chats.len() && self@.chats[j].id == new_chat@.id;
                    assert(j == i as int);
                }
                chat
            },
            Option::None => {
                let chat = TelegramChat {
                    id: new_chat.id,
                    kind: new_chat.kind,
                    username: new_chat.username,
                    first_name: new_chat.first_name,
                    last_name: new_chat.last_name,
                };
                let result = clone_chat(&chat);
                let ghost pre = self@;
                self.chats.push(chat);
                proof {
                    assert(self@.chats =~= pre.chats.push(result@));
                    assert(self@ =~= (StorageModel { chats: pre.chats.push(result@), ..pre }));
                    assert(self@.chats[pre.chats.len() as int].id == new_chat@.id);
                    lemma_has_rows_monotone(pre, self@);
                    assert forall|k: int|
                        #![trigger self@.subscriptions[k]]
                        0 <= k < self@.subscriptions.len() implies self@.has_chat(
                        self@.subscriptions[k].chat_id,
                    ) && self@.has_feed(self@.subscriptions[k].feed_id) by {
                        assert(self@.subscriptions[k] == pre.subscriptions[k]);
                        assert(pre.has_chat(pre.subscriptions[k].chat_id));
                        assert(pre.has_feed(pre.subscriptions[k].feed_id));
                    }
                    assert(self@.wf());
                }
                result
            },
        }
    }

    /// Upsert keyed by the feed URL: returns the existing row where one
    /// carries `link`, else appends a row under a fresh internal id.
    pub fn create_or_get_feed(&mut self, link: String) -> (feed: Feed)
        requires
            old(self)@.wf(),
            old(self)@.next_feed_id < i64::MAX,
        ensures
            final(self)@.wf(),
            feed@.link == link@,
            final(self)@.has_feed_link(link@),
            final(self)@.has_feed(feed@.id),
            old(self)@.has_feed_link(link@) ==> final(self)@ == old(self)@ && feed@ == old(self)@.feed_for_link(link@),
            !old(self)@.has_feed_link(link@) ==> feed@ == (FeedModel {
                id: old(self)@.next_feed_id,
                link: link@,
            }) && final(self)@ == (StorageModel {
                feeds: old(self)@.feeds.push(feed@),
                next_feed_id: old(self)@.next_feed_id + 1,
                ..old(self)@
            }),
            final(self)@.chats == old(self)@.chats,
            final(self)@.subscriptions == old(self)@.subscriptions,
            final(self)@.now == old(self)@.now,
    {
        match self.feed_index_by_link(&link) {
            Option::Some(i) => {
                let feed = clone_feed(&self.feeds[i]);
                proof {
                    assert(self@.feeds[i as int] == self.feeds@[i as int]@);
                    assert(self@.feeds[i as int].link == link@);
                    let j = choose|j: int|
                        0 <= j < self@.feeds.len() && self@.feeds[j].link == link@;
                    assert(j == i as int);
                    assert(self@.feeds[i as int].id == feed@.id);
                }
                feed
            },
            Option::None => {
                let feed = Feed { id: self.next_feed_id, link };
                let result = clone_feed(&feed);
                let ghost pre = self@;
                self.feeds.push(feed);
                self.next_feed_id = self.next_feed_id + 1;
                proof {
                    assert(self@.feeds =~= pre.feeds.push(result@));
                    assert(self@ =~= (StorageModel {
                        feeds: pre.feeds.push(result@),
                        next_feed_id: pre.next_feed_id + 1,
                        ..pre
                    }));
                    let n = pre.feeds.len() as int;
                    assert(self@.feeds[n] == result@);
                    lemma_has_rows_monotone(pre, self@);
                    assert forall|k: int|
                        #![trigger self@.subscriptions[k]]
                        0 <= k < self@.subscriptions.len() implies self@.has_chat(
                        self@.subscriptions[k].chat_id,
                    ) && self@.has_feed(self@.subscriptions[k].feed_id) by {
                        assert(self@.subscriptions[k] == pre.subscriptions[k]);
                        assert(pre.has_chat(pre.subscriptions[k].chat_id));
                        assert(pre.has_feed(pre.subscriptions[k].feed_id));
                    }
                    assert(self@.wf());
                }
                result
            },
        }
    }

    /// Point lookup by external chat id.
    pub fn find_chat(&self, id: i64) -> (r: Option<TelegramChat>)
        requires
            self@.wf(),
        ensures
            r is Some <==> self@.has_chat(id as int),
            r matches Some(c) ==> c@ == self@.chat_for(id as int) && c@.id == id as int,
    {
        match self.chat_index(id) {
            Option::Some(i) => {
                let chat = clone_chat(&self.chats[i]);
                proof {
                    assert(self@.chats[i as int] == self.chats@[i as int]@);
                    assert(self@.chats[i as int].id == id as int);
                    let j = choose|j: int| 0 <= j < self@.chats.len() && self@.chats[j].id == id as int;
                    assert(j == i as int);
                }
                Option::Some(chat)
            },
            Option::None => Option::None,
        }
    }

    /// Point lookup by internal feed id.
    pub fn find_feed(&self, id: i64) -> (r: Option<Feed>)
        requires
            self@.wf(),
        ensures
            r is Some <==> self@.has_feed(id as int),
            r matches Some(f) ==> f@ == self@.feed_for(id as int) && f@.id == id as int,
    {
        let mut i: usize = 0;
        while i < self.feeds.len()
            invariant
                self@.wf(),
                i <= self@.feeds.len(),
                self@.feeds.len() == self.feeds@.len(),
                forall|k: int| 0 <= k < i ==> self@.feeds[k].id != id as int,
            decreases self.feeds.len() - i,
        {
            if self.feeds[i].id == id {
                proof {
                    assert(self@.feeds[i as int] == self.feeds@[i as int]@);
                    assert(self@.feeds[i as int].id == id as int);
                    let j = choose|j: int|
                        0 <= j < self@.feeds.len() && self@.feeds[j].id == id as int;
                    assert(j == i as int);
                }
                return Option::Some(clone_feed(&self.feeds[i]));
            }
            i += 1;
        }
        Option::None
    }

    /// Point lookup of the subscription row for a (chat, feed) pair.
    pub fn find_subscription(&self, subscription: NewTelegramSubscription) -> (r: Option<
        TelegramSubscription,
    >)
        requires
            self@.wf(),
        ensures
            r is Some <==> self@.has_subscription(
                subscription.chat_id as int,
                subscription.feed_id as int,
            ),
            r matches Some(s) ==> s@ == self@.subscription_for(
                subscription.chat_id as int,
                subscription.feed_id as int,
            ) && s@.chat_id == subscription.chat_id as int && s@.feed_id
                == subscription.feed_id as int,
    {
        let mut i: usize = 0;
        while i < self.subscriptions.len()
            invariant
                self@.wf(),
                i <= self@.subscriptions.len(),
                self@.subscriptions.len() == self.subscriptions@.len(),
                forall|k: int|
                    0 <= k < i ==> !(self@.subscriptions[k].chat_id == subscription.chat_id as int
                        && self@.subscriptions[k].feed_id == subscription.feed_id as int),
            decreases self.subscriptions.len() - i,
        {
            let s = self.subscriptions[i];
            if s.chat_id == subscription.chat_id && s.feed_id == subscription.feed_id {
                proof {
                    assert(self@.subscriptions[i as int] == self.subscriptions@[i as int]@);
                    assert(self@.subscriptions[i as int].chat_id == subscription.chat_id as int
                        && self@.subscriptions[i as int].feed_id == subscription.feed_id as int);
                    let j = choose|j: int|
                        0 <= j < self@.subscriptions.len() && self@.subscriptions[j].chat_id
                            == subscription.chat_id as int && self@.subscriptions[j].feed_id
                            == subscription.feed_id as int;
                    assert(j == i as int);
                }
                return Option::Some(s);
            }
            i += 1;
        }
        Option::None
    }

    /// How many subscriptions the chat owns.
    pub fn count_subscriptions_for_chat(&self, chat_id: i64) -> (n: usize)
        ensures
            n == self@.subscription_count(chat_id as int),
    {
        let mut i: usize = 0;
        let mut n: usize = 0;
        proof {
            assert(self@.subscriptions.take(0) =~= Seq::<SubscriptionModel>::empty());
        }
        while i < self.subscriptions.len()
            invariant
                i <= self@.subscriptions.len(),
                self@.subscriptions.len() == self.subscriptions@.len(),
                n <= i,
                n == count_for_chat(self@.subscriptions.take(i as int), chat_id as int),
            decreases self.subscriptions.len() - i,
        {
            proof {
                let taken = self@.subscriptions.take(i as int + 1);
                assert(taken.drop_last() =~= self@.subscriptions.take(i as int));
                assert(taken.last() == self@.subscriptions[i as int]);
            }
            if self.subscriptions[i].chat_id == chat_id {
                n += 1;
            }
            i += 1;
        }
        proof {
            assert(self@.subscriptions.take(i as int) =~= self@.subscriptions);
        }
        n
    }

    /// Inserts the subscription row for a pair not yet present, stamped with
    /// the store's clock.
    pub fn create_subscription(&mut self, subscription: NewTelegramSubscription) -> (s:
        TelegramSubscription)
        requires
            old(self)@.wf(),
            old(self)@.has_chat(subscription.chat_id as int),
            old(self)@.has_feed(subscription.feed_id as int),
            !old(self)@.has_subscription(subscription.chat_id as int, subscription.feed_id as int),
        ensures
            final(self)@.wf(),
            s@ == (SubscriptionModel {
                chat_id: subscription.chat_id as int,
                feed_id: subscription.feed_id as int,
                created_at: old(self)@.now,
                updated_at: old(self)@.now,
            }),
            final(self)@ == (StorageModel {
                subscriptions: old(self)@.subscriptions.push(s@),
                ..old(self)@
            }),
            final(self)@.has_subscription(subscription.chat_id as int, subscription.feed_id as int),
            final(self)@.subscription_count(subscription.chat_id as int) == old(self)@.subscription_count(subscription.chat_id as int) + 1,
            forall|c: int|
                c != subscription.chat_id as int ==> final(self)@.subscription_count(c) == old(self)@.subscription_count(c),
    {
        let s = TelegramSubscription {
            chat_id: subscription.chat_id,
            feed_id: subscription.feed_id,
            created_at: self.now,
            updated_at: self.now,
        };
        let ghost pre = self@;
        self.subscriptions.push(s);
        proof {
            assert(self@.subscriptions =~= pre.subscriptions.push(s@));
            assert(self@ =~= (StorageModel { subscriptions: pre.subscriptions.push(s@), ..pre }));
            let n = pre.subscriptions.len() as int;
            assert(self@.subscriptions[n] == s@);
            lemma_count_push(pre.subscriptions, s@, subscription.chat_id as int);
            assert forall|c: int|
                c != subscription.chat_id as int implies self@.subscription_count(c) == pre.subscription_count(
                c,
            ) by {
                lemma_count_push(pre.subscriptions, s@, c);
            }
            lemma_has_rows_monotone(pre, self@);
            assert forall|k: int|
                #![trigger self@.subscriptions[k]]
                0 <= k < self@.subscriptions.len() implies self@.has_chat(
                self@.subscriptions[k].chat_id,
            ) && self@.has_feed(self@.subscriptions[k].feed_id) by {
                if k < n {
                    assert(self@.subscriptions[k] == pre.subscriptions[k]);
                    assert(pre.has_chat(pre.subscriptions[k].chat_id));
                    assert(pre.has_feed(pre.subscriptions[k].feed_id));
                } else {
                    assert(self@.subscriptions[k] == s@);
                    assert(pre.has_chat(subscription.chat_id as int));
                    assert(pre.has_feed(subscription.feed_id as int));
                }
            }
            assert(self@.wf());
        }
        s
    }

    /// Marks the start of a unit of work.
    pub fn checkpoint(&self) -> (c: Checkpoint)
        ensures
            c.n_chats == self@.chats.len(),
            c.n_feeds == self@.feeds.len(),
            c.n_subscriptions == self@.subscriptions.len(),
            c.next_feed_id as int == self@.next_feed_id,
    {
        Checkpoint {
            n_chats: self.chats.len(),
            n_feeds: self.feeds.len(),
            n_subscriptions: self.subscriptions.len(),
            next_feed_id: self.next_feed_id,
        }
    }

    /// Aborts a unit of work: discards every row appended since the
    /// checkpoint was taken and restores the feed-id counter.
    pub fn rollback(&mut self, c: Checkpoint)
        requires
            c.n_chats <= old(self)@.chats.len(),
            c.n_feeds <= old(self)@.feeds.len(),
            c.n_subscriptions <= old(self)@.subscriptions.len(),
        ensures
            final(self)@ == (StorageModel {
                chats: old(self)@.chats.subrange(0, c.n_chats as int),
                feeds: old(self)@.feeds.subrange(0, c.n_feeds as int),
                subscriptions: old(self)@.subscriptions.subrange(0, c.n_subscriptions as int),
                next_feed_id: c.next_feed_id as int,
                now: old(self)@.now,
            }),
    {
        let ghost pre = self@;
        self.chats.truncate(c.n_chats);
        self.feeds.truncate(c.n_feeds);
        self.subscriptions.truncate(c.n_subscriptions);
        self.next_feed_id = c.next_feed_id;
        proof {
            assert(self@.chats =~= pre.chats.subrange(0, c.n_chats as int));
            assert(self@.feeds =~= pre.feeds.subrange(0, c.n_feeds as int));
            assert(self@.subscriptions =~= pre.subscriptions.subrange(
                0,
                c.n_subscriptions as int,
            ));
            assert(self@ =~= (StorageModel {
                chats: pre.chats.subrange(0, c.n_chats as int),
                feeds: pre.feeds.subrange(0, c.n_feeds as int),
                subscriptions: pre.subscriptions.subrange(0, c.n_subscriptions as int),
                next_feed_id: c.next_feed_id as int,
                now: pre.now,
            }));
        }
    }
}

/// How many subscription rows in `s` link `chat_id` to `feed_id`.
pub open spec fn count_for_pair(s: Seq<SubscriptionModel>, chat_id: int, feed_id: int) -> nat
    decreases s.len(),
{
    if s.len() == 0 {
        0
    } else {
        count_for_pair(s.drop_last(), chat_id, feed_id) + if s.last().chat_id == chat_id
            && s.last().feed_id == feed_id {
            1nat
        } else {
            0nat
        }
    }
}

/// A pair that occurs in no row is counted zero times.
pub proof fn lemma_pair_count_absent(s: Seq<SubscriptionModel>, chat_id: int, feed_id: int)
    requires
        forall|i: int|
            0 <= i < s.len() ==> !(#[trigger] s[i].chat_id == chat_id && s[i].feed_id == feed_id),
    ensures
        count_for_pair(s, chat_id, feed_id) == 0,
    decreases s.len(),
{
    if s.len() > 0 {
        assert(s.last() == s[s.len() - 1]);
        lemma_pair_count_absent(s.drop_last(), chat_id, feed_id);
    }
}

/// In a row list without duplicate pairs, a present pair is counted exactly
/// once.
pub proof fn lemma_pair_count_unique(s: Seq<SubscriptionModel>, chat_id: int, feed_id: int)
    requires
        forall|i: int, j: int|
            0 <= i < j < s.len() ==> !(s[i].chat_id == s[j].chat_id && s[i].feed_id
                == s[j].feed_id),
        exists|i: int| 0 <= i < s.len() && #[trigger] s[i].chat_id == chat_id && s[i].feed_id == feed_id,
    ensures
        count_for_pair(s, chat_id, feed_id) == 1,
    decreases s.len(),
{
    let w = choose|i: int| 0 <= i < s.len() && #[trigger] s[i].chat_id == chat_id && s[i].feed_id == feed_id;
    assert(s.last() == s[s.len() - 1]);
    if w == s.len() - 1 {
        assert forall|i: int|
            0 <= i < s.drop_last().len() implies !(#[trigger] s.drop_last()[i].chat_id == chat_id
            && s.drop_last()[i].feed_id == feed_id) by {
            assert(s.drop_last()[i] == s[i]);
        }
        lemma_pair_count_absent(s.drop_last(), chat_id, feed_id);
    } else {
        assert(s.drop_last()[w] == s[w]);
        lemma_pair_count_unique(s.drop_last(), chat_id, feed_id);
    }
}

/// Extending the chat or feed table never loses a row: whatever id was
/// present before stays present.
proof fn lemma_has_rows_monotone(pre: StorageModel, post: StorageModel)
    requires
        pre.chats.len() <= post.chats.len(),
        forall|i: int| 0 <= i < pre.chats.len() ==> post.chats[i] == pre.chats[i],
        pre.feeds.len() <= post.feeds.len(),
        forall|i: int| 0 <= i < pre.feeds.len() ==> post.feeds[i] == pre.feeds[i],
    ensures
        forall|id: int| #[trigger] pre.has_chat(id) ==> post.has_chat(id),
        forall|id: int| #[trigger] pre.has_feed(id) ==> post.has_feed(id),
{
    assert forall|id: int| #[trigger] pre.has_chat(id) implies post.has_chat(id) by {
        let w = choose|i: int| 0 <= i < pre.chats.len() && pre.chats[i].id == id;
        assert(post.chats[w].id == id);
    }
    assert forall|id: int| #[trigger] pre.has_feed(id) implies post.has_feed(id) by {
        let w = choose|i: int| 0 <= i < pre.feeds.len() && pre.feeds[i].id == id;
        assert(post.feeds[w].id == id);
    }
}

/// Appending one row moves the owning chat's count up by one and no other
/// chat's count at all.
pub proof fn lemma_count_push(s: Seq<SubscriptionModel>, x: SubscriptionModel, chat_id: int)
    ensures
        count_for_chat(s.push(x), chat_id) == count_for_chat(s, chat_id) + if x.chat_id == chat_id {
            1nat
        } else {
            0nat
        },
{
    assert(s.push(x).drop_last() =~= s);
    assert(s.push(x).last() == x);
}

} // verus!
