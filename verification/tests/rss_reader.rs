use rss_subscriptions::sync::rss_reader::{
    parse_feed_document, read_feed_from_xml, FeedError, FetchedFeed, RawChannel, RawItem,
};

fn raw_item(pub_date: Option<&str>) -> RawItem {
    RawItem {
        title: Some("First post".to_string()),
        description: Some("All about the first post".to_string()),
        link: Some("https://example.com/1".to_string()),
        author: Some("someone@example.com".to_string()),
        guid: Some("guid-1".to_string()),
        pub_date: pub_date.map(|s| s.to_string()),
    }
}

fn raw_channel(items: Vec<RawItem>) -> RawChannel {
    RawChannel {
        title: "Example Feed".to_string(),
        link: "https://example.com".to_string(),
        description: "An example feed".to_string(),
        items,
    }
}

#[test]
fn normalization_preserves_items_and_order() {
    let mut items: Vec<RawItem> = Vec::new();
    items.push(raw_item(Some("Wed, 01 Jan 2020 00:00:00 GMT")));
    items.push(RawItem {
        title: None,
        description: None,
        link: None,
        author: None,
        guid: None,
        pub_date: Some("Wed, 01 Jan 2020 01:00:00 +0100".to_string()),
    });

    let feed = FetchedFeed::from_raw(&raw_channel(items)).unwrap();

    assert_eq!(feed.title, "Example Feed");
    assert_eq!(feed.link, "https://example.com");
    assert_eq!(feed.description, "An example feed");
    assert_eq!(feed.items.len(), 2);

    let first = &feed.items[0];
    assert_eq!(first.title.as_deref(), Some("First post"));
    assert_eq!(first.description.as_deref(), Some("All about the first post"));
    assert_eq!(first.link.as_deref(), Some("https://example.com/1"));
    assert_eq!(first.author.as_deref(), Some("someone@example.com"));
    assert_eq!(first.guid.as_deref(), Some("guid-1"));
    assert_eq!(first.publication_date, 1_577_836_800);

    let second = &feed.items[1];
    assert_eq!(second.title, None);
    assert_eq!(second.description, None);
    assert_eq!(second.link, None);
    assert_eq!(second.author, None);
    assert_eq!(second.guid, None);
    // one o'clock at UTC+1 is the same instant as midnight UTC
    assert_eq!(second.publication_date, 1_577_836_800);
}

#[test]
fn normalization_of_an_empty_channel_yields_no_items() {
    let feed = FetchedFeed::from_raw(&raw_channel(Vec::new())).unwrap();
    assert_eq!(feed.items.len(), 0);
}

#[test]
fn a_missing_publication_date_rejects_the_channel() {
    let mut items: Vec<RawItem> = Vec::new();
    items.push(raw_item(Some("Wed, 01 Jan 2020 00:00:00 GMT")));
    items.push(raw_item(None));

    let result = FetchedFeed::from_raw(&raw_channel(items));
    assert_eq!(result.err(), Some(FeedError::InvalidPubDate));
}

#[test]
fn a_malformed_publication_date_rejects_the_channel() {
    let mut items: Vec<RawItem> = Vec::new();
    items.push(raw_item(Some("the first of January")));

    let result = FetchedFeed::from_raw(&raw_channel(items));
    assert_eq!(result.err(), Some(FeedError::InvalidPubDate));
}

#[test]
fn a_feed_document_is_parsed_and_normalized() {
    let xml = "<rss version=\"2.0\"><channel>\
        <title>Example Feed</title>\
        <link>https://example.com</link>\
        <description>An example feed</description>\
        <item>\
        <title>First post</title>\
        <link>https://example.com/1</link>\
        <description>All about the first post</description>\
        <author>someone@example.com</author>\
        <guid>guid-1</guid>\
        <pubDate>Wed, 01 Jan 2020 00:00:00 GMT</pubDate>\
        </item>\
        </channel></rss>";

    let feed = read_feed_from_xml(xml).unwrap();

    assert_eq!(feed.title, "Example Feed");
    assert_eq!(feed.items.len(), 1);
    assert_eq!(feed.items[0].title.as_deref(), Some("First post"));
    assert_eq!(feed.items[0].guid.as_deref(), Some("guid-1"));
    assert_eq!(feed.items[0].publication_date, 1_577_836_800);
}

#[test]
fn a_document_that_is_not_a_feed_is_rejected() {
    let result = read_feed_from_xml("this is no feed document at all");
    assert_eq!(result.err(), Some(FeedError::NotAFeed));
}

#[test]
fn a_feed_whose_item_has_no_date_is_rejected() {
    let xml = "<rss version=\"2.0\"><channel>\
        <title>Example Feed</title>\
        <link>https://example.com</link>\
        <description>An example feed</description>\
        <item><title>No date here</title></item>\
        </channel></rss>";

    let result = read_feed_from_xml(xml);
    assert_eq!(result.err(), Some(FeedError::InvalidPubDate));
}

#[test]
fn parsing_a_document_yields_the_channel_it_holds() {
    let xml = "<rss version=\"2.0\"><channel>\
        <title>Example Feed</title>\
        <link>https://example.com</link>\
        <description>An example feed</description>\
        <item><title>First post</title>\
        <pubDate>Wed, 01 Jan 2020 00:00:00 GMT</pubDate></item>\
        </channel></rss>";

    let channel = parse_feed_document(xml).unwrap();

    assert_eq!(channel.title, "Example Feed");
    assert_eq!(channel.link, "https://example.com");
    assert_eq!(channel.description, "An example feed");
    assert_eq!(channel.items.len(), 1);
    assert_eq!(channel.items[0].title.as_deref(), Some("First post"));
    assert_eq!(
        channel.items[0].pub_date.as_deref(),
        Some("Wed, 01 Jan 2020 00:00:00 GMT")
    );

    assert_eq!(
        parse_feed_document("no feed here").err(),
        Some(FeedError::NotAFeed)
    );
}
