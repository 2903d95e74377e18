use giphy_bot::channels::ChannelInfo;
use giphy_bot::channels::resolve_channel_id;
use giphy_bot::config::ConfigError;
use giphy_bot::config::build_config;
use giphy_bot::handler::Event;
use giphy_bot::handler::GiphyBot;
use giphy_bot::handler::Outcome;
use giphy_bot::handler::Phase;
use giphy_bot::keywords::find_first_keyword;
use giphy_bot::lookup::build_lookup_url;
use giphy_bot::lookup::decide_reply;
use giphy_bot::lookup::extract_media_url;
use giphy_bot::lookup::YamlNode;

fn strings(items: &[&str]) -> Vec<String> {
    items.iter().map(|s| s.to_string()).collect()
}

fn listing() -> Vec<ChannelInfo> {
    vec![
        ChannelInfo { name: "general".to_string(), id: "C1".to_string() },
        ChannelInfo { name: "random".to_string(), id: "C2".to_string() },
    ]
}

fn bot_with(keywords: &[&str], api_key: &str, channel_name: &str) -> GiphyBot {
    let config = build_config(
        Some("xoxb-token".to_string()),
        Some(channel_name.to_string()),
        Some(api_key.to_string()),
        Some(strings(keywords)),
    )
    .unwrap();
    GiphyBot::new(config)
}

#[test]
fn config_accepts_complete_settings() {
    let r = build_config(
        Some("tok".to_string()),
        Some("random".to_string()),
        Some("X".to_string()),
        Some(strings(&["pizza"])),
    );
    let c = r.unwrap();
    assert_eq!(c.auth_token, "tok");
    assert_eq!(c.channel_name, "random");
    assert_eq!(c.api_key, "X");
    assert_eq!(c.keywords, strings(&["pizza"]));
}

#[test]
fn config_reports_first_missing_field() {
    let keywords = || Some(strings(&["pizza"]));
    assert_eq!(
        build_config(None, Some("r".to_string()), Some("X".to_string()), keywords()).unwrap_err(),
        ConfigError::MissingAuthToken,
    );
    assert_eq!(
        build_config(Some("t".to_string()), None, Some("X".to_string()), keywords()).unwrap_err(),
        ConfigError::MissingChannelName,
    );
    assert_eq!(
        build_config(Some("t".to_string()), Some("r".to_string()), None, keywords()).unwrap_err(),
        ConfigError::MissingApiKey,
    );
    assert_eq!(
        build_config(Some("t".to_string()), Some("r".to_string()), Some("X".to_string()), None)
            .unwrap_err(),
        ConfigError::MissingKeywords,
    );
}

#[test]
fn first_configured_keyword_wins() {
    let keywords = strings(&["cat", "dog"]);
    // Both keywords occur in the text; the scan runs in configured order, so
    // the first configured keyword is the one reported, and its position is
    // all that a later lookup is made with.
    assert_eq!(find_first_keyword(&keywords, "a dog and a cat"), Some(0));
    assert_eq!(find_first_keyword(&keywords, "a dog alone"), Some(1));
    assert_eq!(find_first_keyword(&keywords, "nothing here"), None);
}

#[test]
fn substring_match_is_not_whole_word() {
    let keywords = strings(&["cat"]);
    assert_eq!(find_first_keyword(&keywords, "catnip everywhere"), Some(0));
}

#[test]
fn channel_name_resolves_to_listed_id() {
    let id = resolve_channel_id(&listing(), &"random".to_string());
    assert_eq!(id, Some("C2".to_string()));
    let first = resolve_channel_id(&listing(), &"general".to_string());
    assert_eq!(first, Some("C1".to_string()));
}

#[test]
fn unknown_channel_name_does_not_resolve() {
    assert_eq!(resolve_channel_id(&listing(), &"missing".to_string()), None);
}

#[test]
fn connect_binds_channel_and_activates() {
    let mut bot = bot_with(&["pizza"], "X", "random");
    let r = bot.on_event(&Event::Hello { channels: listing() });
    assert!(matches!(r, Outcome::Connected));
    assert_eq!(bot.resolved_channel, Some("C2".to_string()));
    assert!(matches!(bot.phase, Phase::Active));
}

#[test]
fn connect_with_unknown_name_is_fatal() {
    let mut bot = bot_with(&["pizza"], "X", "announcements");
    let r = bot.on_event(&Event::Hello { channels: listing() });
    assert!(matches!(r, Outcome::FatalUnknownChannel));
    assert!(matches!(bot.phase, Phase::Closed));
    assert_eq!(bot.resolved_channel, None);
}

#[test]
fn matching_message_triggers_one_lookup() {
    let mut bot = bot_with(&["pizza"], "X", "random");
    bot.on_event(&Event::Hello { channels: listing() });
    let r = bot.on_event(&Event::StandardMessage {
        text: Some("I want PIZZA now".to_string()),
        channel: Some("C9".to_string()),
    });
    match r {
        Outcome::Triggered { tag, channel } => {
            assert_eq!(tag, "pizza");
            assert_eq!(channel, "C2");
        }
        _ => panic!("the message should trigger a lookup"),
    }
}

#[test]
fn non_matching_message_triggers_nothing() {
    let mut bot = bot_with(&["pizza"], "X", "random");
    bot.on_event(&Event::Hello { channels: listing() });
    let r = bot.on_event(&Event::StandardMessage {
        text: Some("just salad today".to_string()),
        channel: None,
    });
    assert!(matches!(r, Outcome::Ignored));
}

#[test]
fn event_without_text_is_skipped() {
    let mut bot = bot_with(&["pizza"], "X", "random");
    bot.on_event(&Event::Hello { channels: listing() });
    let r = bot.on_event(&Event::StandardMessage { text: None, channel: Some("C2".to_string()) });
    assert!(matches!(r, Outcome::Ignored));
    let r = bot.on_event(&Event::OtherMessageSubtype);
    assert!(matches!(r, Outcome::Ignored));
    let r = bot.on_event(&Event::Other);
    assert!(matches!(r, Outcome::Ignored));
}

#[test]
fn message_before_connect_is_skipped() {
    let mut bot = bot_with(&["pizza"], "X", "random");
    let r = bot.on_event(&Event::StandardMessage {
        text: Some("pizza".to_string()),
        channel: Some("C2".to_string()),
    });
    assert!(matches!(r, Outcome::Ignored));
}

#[test]
fn close_ends_the_session() {
    let mut bot = bot_with(&["pizza"], "X", "random");
    bot.on_event(&Event::Hello { channels: listing() });
    let r = bot.on_event(&Event::Close);
    assert!(matches!(r, Outcome::SessionClosed));
    assert!(matches!(bot.phase, Phase::Closed));
    let r = bot.on_event(&Event::StandardMessage {
        text: Some("pizza".to_string()),
        channel: None,
    });
    assert!(matches!(r, Outcome::Ignored));
}

#[test]
fn lookup_url_embeds_key_and_tag() {
    assert_eq!(
        build_lookup_url("X", "pizza"),
        "http://api.giphy.com/v1/gifs/random?api_key=X&tag=pizza",
    );
}

#[test]
fn reply_carries_url_to_bound_channel() {
    let r = decide_reply(&"C2".to_string(), Some("http://media/abc.gif".to_string()));
    let m = r.unwrap();
    assert_eq!(m.channel, "C2");
    assert_eq!(m.text, "http://media/abc.gif");
}

#[test]
fn absent_lookup_sends_nothing() {
    assert!(decide_reply(&"C2".to_string(), None).is_none());
}

fn node_map(entries: Vec<(&str, YamlNode)>) -> YamlNode {
    YamlNode::Mapping(entries.into_iter().map(|(k, v)| (k.to_string(), v)).collect())
}

/// The same node-for-node flattening the binary applies to a parsed body
/// before handing it to the library.
fn to_node(v: &serde_yaml::Value) -> YamlNode {
    match v {
        serde_yaml::Value::String(s) => YamlNode::Str(s.clone()),
        serde_yaml::Value::Mapping(m) => YamlNode::Mapping(
            m.iter()
                .filter_map(|(k, val)| k.as_str().map(|k| (k.to_string(), to_node(val))))
                .collect(),
        ),
        serde_yaml::Value::Tagged(t) => to_node(&t.value),
        _ => YamlNode::Other,
    }
}

#[test]
fn media_url_extracted_from_response() {
    let doc = node_map(vec![(
        "data",
        node_map(vec![("url", YamlNode::Str("http://media/abc.gif".to_string()))]),
    )]);
    assert_eq!(extract_media_url(&doc), Some("http://media/abc.gif".to_string()));
}

#[test]
fn media_url_extracted_from_parsed_body() {
    let v: serde_yaml::Value =
        serde_yaml::from_str("data:\n  url: \"http://media/abc.gif\"\n").unwrap();
    assert_eq!(extract_media_url(&to_node(&v)), Some("http://media/abc.gif".to_string()));
}

#[test]
fn response_without_url_yields_nothing() {
    let no_url = node_map(vec![("data", node_map(vec![("image", YamlNode::Str("x".to_string()))]))]);
    assert_eq!(extract_media_url(&no_url), None);
    let no_data = node_map(vec![("meta", YamlNode::Str("ok".to_string()))]);
    assert_eq!(extract_media_url(&no_data), None);
    let url_not_string = node_map(vec![("data", node_map(vec![("url", YamlNode::Other)]))]);
    assert_eq!(extract_media_url(&url_not_string), None);
    let data_not_mapping = node_map(vec![("data", YamlNode::Other)]);
    assert_eq!(extract_media_url(&data_not_mapping), None);
    assert_eq!(extract_media_url(&YamlNode::Other), None);
}

#[test]
fn first_entry_wins_when_a_key_repeats() {
    let doc = node_map(vec![
        ("data", YamlNode::Other),
        ("data", node_map(vec![("url", YamlNode::Str("u".to_string()))])),
    ]);
    assert_eq!(extract_media_url(&doc), None);
}

#[test]
fn end_to_end_scenario() {
    let mut bot = bot_with(&["pizza"], "X", "random");
    assert!(matches!(bot.on_event(&Event::Hello { channels: listing() }), Outcome::Connected));
    let outcome = bot.on_event(&Event::StandardMessage {
        text: Some("I want PIZZA now".to_string()),
        channel: None,
    });
    let (tag, channel) = match outcome {
        Outcome::Triggered { tag, channel } => (tag, channel),
        _ => panic!("the message should trigger a lookup"),
    };
    assert_eq!(tag, "pizza");
    let url = build_lookup_url(&bot.api_key, &tag);
    assert_eq!(url, "http://api.giphy.com/v1/gifs/random?api_key=X&tag=pizza");
    let sent = decide_reply(&channel, Some("http://media/abc.gif".to_string())).unwrap();
    assert_eq!(sent.channel, "C2");
    assert_eq!(sent.text, "http://media/abc.gif");
}
