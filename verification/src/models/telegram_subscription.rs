use vstd::prelude::*;

verus! {

/// Mathematical view of a stored subscription row: external chat id, internal
/// feed id, and the creation and last-update instants in seconds since the
/// Unix epoch.
#[verifier::ext_equal]
pub struct SubscriptionModel {
    pub chat_id: int,
    pub feed_id: int,
    pub created_at: int,
    pub updated_at: int,
}

/// A persisted link between one chat and one feed, carrying creation and
/// last-update timestamps in seconds since the Unix epoch.
#[derive(Debug, Clone, Copy, PartialEq, Eq, Structural)]
pub struct TelegramSubscription {
    pub chat_id: i64,
    pub feed_id: i64,
    pub created_at: i64,
    pub updated_at: i64,
}

impl View for TelegramSubscription {
    type V = SubscriptionModel;

    open spec fn view(&self) -> SubscriptionModel {
        SubscriptionModel {
            chat_id: self.chat_id as int,
            feed_id: self.feed_id as int,
            created_at: self.created_at as int,
            updated_at: self.updated_at as int,
        }
    }
}

} // verus!
