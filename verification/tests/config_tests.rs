use feedcfg::config::{ChatId, Config, ConfigError, FeedKind};

fn load(text: &str) -> Result<Config, ConfigError> {
    Config::from_slice(text.as_bytes())
}

#[test]
fn minimal_file_loads_with_empty_feeds() {
    let cfg = load("token: abc\nredis_url: redis://localhost\nfeeds: {}\n").unwrap();
    assert_eq!(cfg.redis_url(), "redis://localhost");
    assert!(cfg.into_feeds().is_empty());
}

#[test]
fn numeric_key_resolves_to_numeric_id() {
    let cfg = load(
        "token: t\nredis_url: r\nfeeds:\n  \"12345\":\n    - url: http://a\n      kind: rss\n",
    )
    .unwrap();
    let feeds = cfg.into_feeds();
    assert_eq!(feeds.len(), 1);
    assert_eq!(feeds[0].chat_id, ChatId::Id(12345));
}

#[test]
fn symbolic_key_resolves_to_name() {
    let cfg = load(
        "token: t\nredis_url: r\nfeeds:\n  \"@channel\":\n    - url: http://a\n      kind: atom\n",
    )
    .unwrap();
    let feeds = cfg.into_feeds();
    assert_eq!(feeds[0].chat_id, ChatId::Username("@channel".to_owned()));
}

#[test]
fn negative_numeric_key_resolves_to_numeric_id() {
    let cfg = load(
        "token: t\nredis_url: r\nfeeds:\n  \"-1001234\":\n    - url: http://a\n      kind: rss\n",
    )
    .unwrap();
    assert_eq!(cfg.into_feeds()[0].chat_id, ChatId::Id(-1001234));
}

#[test]
fn out_of_range_numeric_key_stays_symbolic() {
    let cfg = load(
        "token: t\nredis_url: r\nfeeds:\n  \"92233720368547758080\":\n    - url: http://a\n      kind: rss\n",
    )
    .unwrap();
    assert_eq!(
        cfg.into_feeds()[0].chat_id,
        ChatId::Username("92233720368547758080".to_owned())
    );
}

#[test]
fn entries_under_one_key_share_the_identifier() {
    let cfg = load(
        "token: t\nredis_url: r\nfeeds:\n  \"77\":\n    - url: http://a\n      kind: rss\n    - url: http://b\n      kind: atom\n",
    )
    .unwrap();
    let feeds = cfg.into_feeds();
    assert_eq!(feeds.len(), 2);
    assert_eq!(feeds[0].chat_id, feeds[1].chat_id);
    assert_eq!(feeds[0].chat_id, ChatId::Id(77));
}

#[test]
fn include_feed_title_inherits_and_overrides() {
    let cfg = load(
        "token: t\nredis_url: r\ninclude_feed_title: true\nfeeds:\n  a:\n    - url: http://a\n      kind: rss\n    - url: http://b\n      kind: rss\n      include_feed_title: false\n",
    )
    .unwrap();
    let feeds = cfg.into_feeds();
    assert!(feeds[0].include_feed_title);
    assert!(!feeds[1].include_feed_title);
}

#[test]
fn include_feed_title_defaults_to_false() {
    let cfg = load("token: t\nredis_url: r\nfeeds:\n  a:\n    - url: http://a\n      kind: rss\n")
        .unwrap();
    assert!(!cfg.into_feeds()[0].include_feed_title);
}

#[test]
fn global_request_timeout_reaches_each_feed() {
    let cfg = load(
        "token: t\nredis_url: r\nrequest_timeout: 30\nfeeds:\n  a:\n    - url: http://a\n      kind: rss\n",
    )
    .unwrap();
    assert_eq!(cfg.into_feeds()[0].request_timeout, 30);
}

#[test]
fn request_timeout_defaults_to_1200() {
    let cfg = load("token: t\nredis_url: r\nfeeds:\n  a:\n    - url: http://a\n      kind: rss\n")
        .unwrap();
    assert_eq!(cfg.into_feeds()[0].request_timeout, 1200);
}

#[test]
fn per_feed_request_timeout_overrides_global() {
    let cfg = load(
        "token: t\nredis_url: r\nrequest_timeout: 30\nfeeds:\n  a:\n    - url: http://a\n      kind: rss\n      request_timeout: 5\n",
    )
    .unwrap();
    assert_eq!(cfg.into_feeds()[0].request_timeout, 5);
}

#[test]
fn kinds_parse_case_sensitively() {
    let cfg = load(
        "token: t\nredis_url: r\nfeeds:\n  a:\n    - url: http://a\n      kind: rss\n    - url: http://b\n      kind: atom\n",
    )
    .unwrap();
    let feeds = cfg.into_feeds();
    assert_eq!(feeds[0].kind, FeedKind::Rss);
    assert_eq!(feeds[1].kind, FeedKind::Atom);
}

#[test]
fn unknown_kind_fails_the_load() {
    let r = load(
        "token: t\nredis_url: r\nfeeds:\n  a:\n    - url: http://a\n      kind: json\n",
    );
    assert!(matches!(r, Err(ConfigError::ParseYaml(_))));
}

#[test]
fn capitalized_kind_fails_the_load() {
    let r = load(
        "token: t\nredis_url: r\nfeeds:\n  a:\n    - url: http://a\n      kind: RSS\n",
    );
    assert!(matches!(r, Err(ConfigError::ParseYaml(_))));
}

#[test]
fn missing_token_fails_the_load() {
    let r = load("redis_url: r\nfeeds: {}\n");
    assert!(matches!(r, Err(ConfigError::ParseYaml(_))));
}

#[test]
fn missing_redis_url_fails_the_load() {
    let r = load("token: t\nfeeds: {}\n");
    assert!(matches!(r, Err(ConfigError::ParseYaml(_))));
}

#[test]
fn missing_feeds_fails_the_load() {
    let r = load("token: t\nredis_url: r\n");
    assert!(matches!(r, Err(ConfigError::ParseYaml(_))));
}

#[test]
fn wrongly_typed_token_fails_the_load() {
    let r = load("token:\n  - 1\nredis_url: r\nfeeds: {}\n");
    assert!(matches!(r, Err(ConfigError::ParseYaml(_))));
}

#[test]
fn unquoted_numeric_destination_key_fails_the_load() {
    let r = load("token: t\nredis_url: r\nfeeds:\n  123:\n    - url: http://a\n      kind: rss\n");
    assert!(matches!(r, Err(ConfigError::ParseYaml(_))));
}

#[test]
fn negative_request_timeout_fails_the_load() {
    let r = load("token: t\nredis_url: r\nrequest_timeout: -5\nfeeds: {}\n");
    assert!(matches!(r, Err(ConfigError::ParseYaml(_))));
}

#[test]
fn unparsable_bytes_fail_the_load() {
    let r = load("token: [unclosed\n");
    assert!(matches!(r, Err(ConfigError::ParseYaml(_))));
}

#[test]
fn unknown_top_level_fields_are_ignored() {
    let cfg = load("token: t\nredis_url: r\nextra:\n  deep:\n    - 1\nfeeds: {}\n").unwrap();
    assert_eq!(cfg.redis_url(), "r");
}

#[test]
fn feed_order_follows_the_file() {
    let cfg = load(
        "token: t\nredis_url: r\nfeeds:\n  b:\n    - url: http://b1\n      kind: rss\n    - url: http://b2\n      kind: rss\n  a:\n    - url: http://a1\n      kind: rss\n",
    )
    .unwrap();
    let urls: Vec<String> = cfg.into_feeds().into_iter().map(|f| f.url).collect();
    assert_eq!(urls, vec!["http://b1", "http://b2", "http://a1"]);
}

#[test]
fn loading_twice_gives_equal_configurations() {
    let text = "token: t\nproxy: http://p:1\nredis_url: r\nfeeds:\n  \"5\":\n    - url: http://a\n      kind: rss\n";
    let c1 = load(text).unwrap();
    let c2 = load(text).unwrap();
    assert_eq!(c1, c2);
}
