use wxr_report::error::ExtractError;
use wxr_report::event::Event;
use wxr_report::extractor::Extractor;
use wxr_report::names::{field_for, name_matches, XmlTagType};
use wxr_report::policy::record_policy;
use wxr_report::post::{read_characters, PostData};
use wxr_report::stats::Stats;

fn chunk(data: &str) -> Event {
    Event::Characters(data.to_string())
}

#[test]
fn new_post_is_blank() {
    let post = PostData::new();
    assert_eq!(post.contents, "");
    assert_eq!(post.link, "");
    assert_eq!(post.date, "");
    assert_eq!(post.title, "");
    assert!(!post.has_password);
    assert_eq!(post.cur_tag, "");
    assert!(post.tags.is_empty());
}

#[test]
fn new_stats_are_zero() {
    let stats = Stats::new();
    assert_eq!(stats.total_posts, 0);
    assert_eq!(stats.posts_emitted, 0);
    assert_eq!(stats.posts_skipped_because_of_password, 0);
}

#[test]
fn name_matches_compares_exactly() {
    assert!(name_matches("item", "item"));
    assert!(name_matches("", ""));
    assert!(!name_matches("item", "Item"));
    assert!(!name_matches("item", "items"));
    assert!(!name_matches("items", "item"));
    assert!(!name_matches("item", "itex"));
    assert!(!name_matches("", "item"));
    assert!(name_matches("caf\u{e9}", "caf\u{e9}"));
    assert!(!name_matches("caf\u{e9}", "cafe"));
}

#[test]
fn field_table_has_six_entries() {
    assert_eq!(field_for("title"), XmlTagType::Title);
    assert_eq!(field_for("category"), XmlTagType::Tag);
    assert_eq!(field_for("encoded"), XmlTagType::Contents);
    assert_eq!(field_for("link"), XmlTagType::Link);
    assert_eq!(field_for("post_date"), XmlTagType::Date);
    assert_eq!(field_for("post_password"), XmlTagType::Password);
    assert_eq!(field_for("item"), XmlTagType::Irrelevant);
    assert_eq!(field_for("pubDate"), XmlTagType::Irrelevant);
    assert_eq!(field_for("Title"), XmlTagType::Irrelevant);
    assert_eq!(field_for(""), XmlTagType::Irrelevant);
}

#[test]
fn read_characters_appends_to_the_active_field() {
    let mut post = PostData::new();
    read_characters(&XmlTagType::Title, "Du", &mut post);
    read_characters(&XmlTagType::Title, "ne", &mut post);
    read_characters(&XmlTagType::Link, "http://", &mut post);
    read_characters(&XmlTagType::Link, "x", &mut post);
    read_characters(&XmlTagType::Date, "2024", &mut post);
    read_characters(&XmlTagType::Contents, " <p> ", &mut post);
    read_characters(&XmlTagType::Contents, "\n", &mut post);
    read_characters(&XmlTagType::Tag, "bo", &mut post);
    read_characters(&XmlTagType::Tag, "oks", &mut post);
    read_characters(&XmlTagType::Irrelevant, "dropped", &mut post);
    assert_eq!(post.title, "Dune");
    assert_eq!(post.link, "http://x");
    assert_eq!(post.date, "2024");
    assert_eq!(post.contents, " <p> \n");
    assert_eq!(post.cur_tag, "books");
    assert!(post.tags.is_empty());
    assert!(!post.has_password);
}

#[test]
fn read_characters_records_a_password_for_good() {
    let mut post = PostData::new();
    read_characters(&XmlTagType::Password, "", &mut post);
    assert!(!post.has_password);
    read_characters(&XmlTagType::Password, "s", &mut post);
    assert!(post.has_password);
    read_characters(&XmlTagType::Password, "", &mut post);
    assert!(post.has_password);
    assert_eq!(post.title, "");
}

#[test]
fn commit_tag_moves_pending_text_to_the_tags() {
    let mut post = PostData::new();
    post.commit_tag();
    assert!(post.tags.is_empty());
    read_characters(&XmlTagType::Tag, "books", &mut post);
    post.commit_tag();
    assert_eq!(post.tags, vec!["books".to_string()]);
    assert_eq!(post.cur_tag, "");
    post.commit_tag();
    assert_eq!(post.tags, vec!["books".to_string()]);
}

#[test]
fn has_tag_compares_exactly() {
    let mut post = PostData::new();
    post.tags.push("fiction".to_string());
    post.tags.push("books".to_string());
    assert!(post.has_tag("books"));
    assert!(post.has_tag("fiction"));
    assert!(!post.has_tag("Books"));
    assert!(!post.has_tag("book"));
    assert!(!post.has_tag(""));
}

#[test]
fn policy_keeps_a_matching_post() {
    let mut post = PostData::new();
    post.title.push_str("Dune");
    post.tags.push("books".to_string());
    let mut posts = Vec::new();
    let mut stats = Stats::new();
    assert!(record_policy(post, "books", &mut posts, &mut stats).is_ok());
    assert_eq!(posts.len(), 1);
    assert_eq!(posts[0].title, "Dune");
    assert_eq!(stats.total_posts, 1);
    assert_eq!(stats.posts_emitted, 1);
    assert_eq!(stats.posts_skipped_because_of_password, 0);
}

#[test]
fn policy_skips_a_protected_post() {
    let mut post = PostData::new();
    post.tags.push("books".to_string());
    post.has_password = true;
    let mut posts = Vec::new();
    let mut stats = Stats::new();
    assert!(record_policy(post, "books", &mut posts, &mut stats).is_ok());
    assert!(posts.is_empty());
    assert_eq!(stats.total_posts, 1);
    assert_eq!(stats.posts_emitted, 0);
    assert_eq!(stats.posts_skipped_because_of_password, 1);
}

#[test]
fn policy_drops_a_post_without_the_tag() {
    let mut post = PostData::new();
    post.tags.push("movies".to_string());
    post.has_password = true;
    let mut posts = Vec::new();
    let mut stats = Stats::new();
    assert!(record_policy(post, "books", &mut posts, &mut stats).is_ok());
    assert!(posts.is_empty());
    assert_eq!(stats.total_posts, 1);
    assert_eq!(stats.posts_emitted, 0);
    assert_eq!(stats.posts_skipped_because_of_password, 0);
}

#[test]
fn policy_fails_when_the_counter_is_full() {
    let mut post = PostData::new();
    post.tags.push("books".to_string());
    let mut posts = Vec::new();
    let mut stats = Stats {
        total_posts: u32::MAX,
        posts_emitted: 7,
        posts_skipped_because_of_password: 2,
    };
    let outcome = record_policy(post, "books", &mut posts, &mut stats);
    assert!(matches!(outcome, Err(ExtractError::CounterOverflow)));
    assert!(posts.is_empty());
    assert_eq!(stats.total_posts, u32::MAX);
    assert_eq!(stats.posts_emitted, 7);
    assert_eq!(stats.posts_skipped_because_of_password, 2);
}

#[test]
fn policy_counts_up_to_the_last_value() {
    let post = PostData::new();
    let mut posts = Vec::new();
    let mut stats = Stats {
        total_posts: u32::MAX - 1,
        posts_emitted: 0,
        posts_skipped_because_of_password: 0,
    };
    assert!(record_policy(post, "books", &mut posts, &mut stats).is_ok());
    assert_eq!(stats.total_posts, u32::MAX);
}

#[test]
fn extractor_starts_outside_everything() {
    let extractor = Extractor::new("books");
    assert_eq!(extractor.target(), "books");
    assert!(!extractor.in_item());
    assert_eq!(extractor.scope(), XmlTagType::Irrelevant);
    assert!(extractor.posts().is_empty());
    assert_eq!(extractor.stats(), Stats::new());
    assert_eq!(extractor.current().title, "");
}

#[test]
fn scope_follows_the_elements() {
    let mut extractor = Extractor::new("books");
    extractor.open_element("title");
    assert_eq!(extractor.scope(), XmlTagType::Irrelevant);
    assert!(!extractor.in_item());
    extractor.open_element("item");
    assert!(extractor.in_item());
    assert_eq!(extractor.scope(), XmlTagType::Irrelevant);
    let table = [
        ("title", XmlTagType::Title),
        ("category", XmlTagType::Tag),
        ("encoded", XmlTagType::Contents),
        ("link", XmlTagType::Link),
        ("post_date", XmlTagType::Date),
        ("post_password", XmlTagType::Password),
    ];
    for (name, field) in table {
        extractor.open_element(name);
        assert_eq!(extractor.scope(), field);
        extractor.open_element("unknown");
        assert_eq!(extractor.scope(), field);
        assert!(extractor.close_element("unknown").is_ok());
        assert_eq!(extractor.scope(), field);
        assert!(extractor.close_element(name).is_ok());
        assert_eq!(extractor.scope(), XmlTagType::Irrelevant);
        assert!(extractor.in_item());
    }
    assert!(extractor.close_element("item").is_ok());
    assert!(!extractor.in_item());
    assert_eq!(extractor.stats().total_posts, 1);
}

#[test]
fn item_inside_item_changes_nothing() {
    let mut extractor = Extractor::new("books");
    extractor.open_element("item");
    extractor.open_element("title");
    extractor.open_element("item");
    assert!(extractor.in_item());
    assert_eq!(extractor.scope(), XmlTagType::Title);
}

#[test]
fn scope_mismatch_leaves_the_state_as_it_was() {
    let mut extractor = Extractor::new("books");
    extractor.open_element("item");
    extractor.open_element("link");
    assert!(extractor.feed(&chunk("http://x")).is_ok());
    let outcome = extractor.close_element("post_date");
    assert!(matches!(
        outcome,
        Err(ExtractError::ScopeMismatch {
            expected: XmlTagType::Date,
            actual: XmlTagType::Link
        })
    ));
    assert!(extractor.in_item());
    assert_eq!(extractor.scope(), XmlTagType::Link);
    assert_eq!(extractor.current().link, "http://x");
    assert_eq!(extractor.stats(), Stats::new());
}

#[test]
fn item_close_resets_scope_and_post() {
    let mut extractor = Extractor::new("books");
    extractor.open_element("item");
    extractor.open_element("title");
    assert!(extractor.feed(&chunk("Dune")).is_ok());
    assert!(extractor.close_element("item").is_ok());
    assert!(!extractor.in_item());
    assert_eq!(extractor.scope(), XmlTagType::Irrelevant);
    assert_eq!(extractor.current().title, "");
    assert_eq!(extractor.stats().total_posts, 1);
}

#[test]
fn item_close_outside_an_item_still_counts() {
    let mut extractor = Extractor::new("books");
    assert!(extractor.close_element("item").is_ok());
    assert_eq!(extractor.stats().total_posts, 1);
    assert_eq!(extractor.stats().posts_emitted, 0);
}

#[test]
fn finish_hands_out_posts_and_counters() {
    let mut extractor = Extractor::new("books");
    for event in [
        Event::StartElement("item".to_string()),
        Event::StartElement("category".to_string()),
        chunk("books"),
        Event::EndElement("category".to_string()),
        Event::EndElement("item".to_string()),
        Event::StartElement("item".to_string()),
        Event::StartElement("title".to_string()),
        chunk("unfinished"),
    ] {
        assert!(extractor.feed(&event).is_ok());
    }
    let found = extractor.finish();
    assert_eq!(found.posts.len(), 1);
    assert_eq!(found.stats.total_posts, 1);
    assert_eq!(found.stats.posts_emitted, 1);
}
