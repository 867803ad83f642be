use rss_subscriptions::bot::logic::{create_subscription, SubscriptionError};
use rss_subscriptions::db::{NewTelegramChat, Storage};
use rss_subscriptions::sync::rss_reader::{FeedError, RawChannel, RawItem, ReadRSS};

struct StubReader {
    ok: bool,
}

impl ReadRSS for StubReader {
    fn read_rss(&self, _url: &str) -> Result<RawChannel, FeedError> {
        if self.ok {
            Ok(sample_channel())
        } else {
            Err(FeedError::Fetch)
        }
    }
}

fn sample_channel() -> RawChannel {
    let mut items: Vec<RawItem> = Vec::new();
    items.push(RawItem {
        title: Some("First".to_string()),
        description: None,
        link: None,
        author: None,
        guid: None,
        pub_date: Some("Wed, 01 Jan 2020 00:00:00 GMT".to_string()),
    });
    RawChannel {
        title: "Example Feed".to_string(),
        link: "https://example.com".to_string(),
        description: "An example feed".to_string(),
        items,
    }
}

fn sample_chat() -> NewTelegramChat {
    NewTelegramChat {
        id: 42,
        kind: "private".to_string(),
        username: Some("Username".to_string()),
        first_name: Some("First".to_string()),
        last_name: Some("Last".to_string()),
    }
}

#[test]
fn create_subscription_creates_new_subscription() {
    let mut db = Storage::new(1_577_836_800);
    let reader = StubReader { ok: true };
    let new_chat = sample_chat();

    let subscription = create_subscription(
        &mut db,
        &reader,
        new_chat,
        Some("https:/google.com".to_string()),
    )
    .unwrap();

    assert!(db.find_feed(subscription.feed_id).is_some());
    assert!(db.find_chat(subscription.chat_id).is_some());
}

#[test]
fn create_subscription_fails_to_create_chat_when_rss_url_is_invalid() {
    let mut db = Storage::new(1_577_836_800);
    let reader = StubReader { ok: true };
    let new_chat = sample_chat();

    let result = create_subscription(&mut db, &reader, new_chat, Some("11".to_string()));
    assert_eq!(result.err(), Some(SubscriptionError::InvalidRssUrl));
}

#[test]
fn create_subscription_fails_to_create_a_subscription_if_it_already_exists() {
    let mut db = Storage::new(1_577_836_800);
    let reader = StubReader { ok: true };
    let new_chat = sample_chat();

    let subscription = create_subscription(
        &mut db,
        &reader,
        new_chat.clone(),
        Some("https:/google.com".to_string()),
    )
    .unwrap();

    assert!(db.find_feed(subscription.feed_id).is_some());
    assert!(db.find_chat(subscription.chat_id).is_some());

    let result = create_subscription(
        &mut db,
        &reader,
        new_chat,
        Some("https:/google.com".to_string()),
    );
    assert_eq!(
        result.err(),
        Some(SubscriptionError::SubscriptionAlreadyExists)
    );
}

#[test]
fn create_subscription_fails_to_create_a_subscription_if_it_already_has_3_suscriptions() {
    let mut db = Storage::new(1_577_836_800);
    let reader = StubReader { ok: true };
    let new_chat = sample_chat();

    create_subscription(
        &mut db,
        &reader,
        new_chat.clone(),
        Some("https:/google.com".to_string()),
    )
    .unwrap();
    create_subscription(
        &mut db,
        &reader,
        new_chat.clone(),
        Some("https:/google1.com".to_string()),
    )
    .unwrap();
    create_subscription(
        &mut db,
        &reader,
        new_chat.clone(),
        Some("https:/google2.com".to_string()),
    )
    .unwrap();

    let result = create_subscription(
        &mut db,
        &reader,
        new_chat,
        Some("https:/google3.com".to_string()),
    );

    assert_eq!(result.err(), Some(SubscriptionError::SubscriptionCountLimit));
}

#[test]
fn create_subscription_fails_if_url_is_not_provided() {
    let mut db = Storage::new(1_577_836_800);
    let reader = StubReader { ok: true };
    let new_chat = sample_chat();

    let result = create_subscription(&mut db, &reader, new_chat, None);

    assert_eq!(result.err(), Some(SubscriptionError::RssUrlNotProvided));
}

#[test]
fn same_chat_is_reused_across_two_subscriptions() {
    let mut db = Storage::new(1_577_836_800);
    let reader = StubReader { ok: true };

    let first = create_subscription(
        &mut db,
        &reader,
        sample_chat(),
        Some("https:/google.com".to_string()),
    )
    .unwrap();
    let second = create_subscription(
        &mut db,
        &reader,
        sample_chat(),
        Some("https:/google1.com".to_string()),
    )
    .unwrap();

    assert_eq!(first.chat_id, 42);
    assert_eq!(second.chat_id, first.chat_id);
    assert_ne!(second.feed_id, first.feed_id);
}

#[test]
fn exactly_one_row_remains_after_a_duplicate_attempt() {
    let mut db = Storage::new(1_577_836_800);
    let reader = StubReader { ok: true };

    create_subscription(
        &mut db,
        &reader,
        sample_chat(),
        Some("https:/google.com".to_string()),
    )
    .unwrap();
    let result = create_subscription(
        &mut db,
        &reader,
        sample_chat(),
        Some("https:/google.com".to_string()),
    );

    assert_eq!(
        result.err(),
        Some(SubscriptionError::SubscriptionAlreadyExists)
    );
    assert_eq!(db.count_subscriptions_for_chat(42), 1);
}

#[test]
fn count_stays_at_three_after_a_rejected_fourth_attempt() {
    let mut db = Storage::new(1_577_836_800);
    let reader = StubReader { ok: true };

    for url in ["https:/a.com", "https:/b.com", "https:/c.com"] {
        create_subscription(&mut db, &reader, sample_chat(), Some(url.to_string())).unwrap();
    }
    let result = create_subscription(
        &mut db,
        &reader,
        sample_chat(),
        Some("https:/d.com".to_string()),
    );

    assert_eq!(result.err(), Some(SubscriptionError::SubscriptionCountLimit));
    assert_eq!(db.count_subscriptions_for_chat(42), 3);
}

#[test]
fn missing_url_leaves_no_rows_behind() {
    let mut db = Storage::new(1_577_836_800);
    let reader = StubReader { ok: true };

    let result = create_subscription(&mut db, &reader, sample_chat(), None);

    assert_eq!(result.err(), Some(SubscriptionError::RssUrlNotProvided));
    assert!(db.find_chat(42).is_none());
    assert_eq!(db.count_subscriptions_for_chat(42), 0);
}

#[test]
fn invalid_url_leaves_no_rows_behind() {
    let mut db = Storage::new(1_577_836_800);
    let reader = StubReader { ok: true };

    let result = create_subscription(&mut db, &reader, sample_chat(), Some("11".to_string()));

    assert_eq!(result.err(), Some(SubscriptionError::InvalidRssUrl));
    assert!(db.find_chat(42).is_none());
    assert_eq!(db.count_subscriptions_for_chat(42), 0);
}

#[test]
fn unreachable_feed_is_rejected_and_leaves_no_rows() {
    let mut db = Storage::new(1_577_836_800);
    let reader = StubReader { ok: false };

    let result = create_subscription(
        &mut db,
        &reader,
        sample_chat(),
        Some("https://example.com/feed".to_string()),
    );

    assert_eq!(result.err(), Some(SubscriptionError::UrlIsNotRss));
    assert!(db.find_chat(42).is_none());
    assert_eq!(db.count_subscriptions_for_chat(42), 0);
}

#[test]
fn subscription_rows_carry_the_storage_clock() {
    let mut db = Storage::new(1_600_000_000);
    let reader = StubReader { ok: true };

    let subscription = create_subscription(
        &mut db,
        &reader,
        sample_chat(),
        Some("https:/google.com".to_string()),
    )
    .unwrap();

    assert_eq!(subscription.created_at, 1_600_000_000);
    assert_eq!(subscription.updated_at, 1_600_000_000);

    db.set_now(1_600_000_100);
    let later = create_subscription(
        &mut db,
        &reader,
        sample_chat(),
        Some("https:/google1.com".to_string()),
    )
    .unwrap();
    assert_eq!(later.created_at, 1_600_000_100);
}

#[test]
fn stub_reader_answers_with_canned_channel() {
    let reader = StubReader { ok: true };
    assert!(reader.read_rss("https://example.com/feed").is_ok());
}
