use pr_weekly::email::template::{TEMPLATE, TEMPLATE_NAME};
use pr_weekly::gh::client::{is_header_value, GithubBuilder};
use pr_weekly::gh::query::{week_query_at, MAX_TIMESTAMP, MIN_TIMESTAMP, WEEK_SECONDS};

#[test]
fn the_calendar_spans_the_timestamps_that_have_a_date() {
    assert!(chrono::DateTime::from_timestamp(MIN_TIMESTAMP, 0).is_some());
    assert!(chrono::DateTime::from_timestamp(MIN_TIMESTAMP - 1, 0).is_none());
    assert!(chrono::DateTime::from_timestamp(MAX_TIMESTAMP, 0).is_some());
    assert!(chrono::DateTime::from_timestamp(MAX_TIMESTAMP + 1, 0).is_none());
    assert_eq!(chrono::DateTime::<chrono::Utc>::MIN_UTC.timestamp(), MIN_TIMESTAMP);
    assert_eq!(chrono::DateTime::<chrono::Utc>::MAX_UTC.timestamp(), MAX_TIMESTAMP);
}

#[test]
fn the_clock_gives_a_timestamp_that_has_a_date() {
    let now = chrono::Utc::now().timestamp();
    assert!(0 <= now && now <= MAX_TIMESTAMP);
}

#[test]
fn the_day_of_a_week_query_is_the_one_the_calendar_writes() {
    for now in [0i64, 86_399, 951_782_400, 1_710_460_800, 4_102_444_800, -86_400 * 366] {
        let since = chrono::DateTime::from_timestamp(now, 0).unwrap() - chrono::Duration::days(7);
        let day = since.format("%Y-%m-%d").to_string();
        let query = week_query_at("o/r", false, now).unwrap();
        assert_eq!(query, format!("repo:o/r is:pr created:>{}", day));
        assert_eq!(since.timestamp(), now - WEEK_SECONDS);
    }
}

#[test]
fn a_new_registry_is_empty_and_escapes() {
    let mut registry = handlebars::Handlebars::new();
    assert!(registry.get_templates().is_empty());
    registry.register_template_string("t", "{{x}}").unwrap();
    let mut fields = serde_json::Map::new();
    fields.insert("x".to_string(), serde_json::Value::from("<&>"));
    let data = serde_json::Value::Object(fields);
    assert_eq!(registry.render("t", &data).unwrap(), "&lt;&amp;&gt;");
    registry.register_escape_fn(handlebars::no_escape);
    assert_eq!(registry.get_templates().len(), 1);
    assert_eq!(registry.render("t", &data).unwrap(), "<&>");
}

#[test]
fn a_text_that_is_no_template_is_not_registered() {
    let mut registry = handlebars::Handlebars::new();
    registry.register_template_string("kept", "a").unwrap();
    assert!(registry.register_template_string("t", "{{#if x}}").is_err());
    assert!(registry.register_template_string("kept", "{{/if}}").is_err());
    assert!(!registry.has_template("t"));
    assert_eq!(registry.get_templates().len(), 1);
    assert_eq!(registry.render("kept", &serde_json::Value::Null).unwrap(), "a");
    registry.register_template_string("kept", "b").unwrap();
    assert_eq!(registry.get_templates().len(), 1);
    assert_eq!(registry.render("kept", &serde_json::Value::Null).unwrap(), "b");
    assert!(registry.register_template_string(TEMPLATE_NAME, TEMPLATE).is_ok());
    assert!(registry.render("missing", &serde_json::Value::Null).is_err());
}

#[test]
fn setting_a_field_twice_keeps_the_last_value() {
    let mut fields = serde_json::Map::new();
    assert!(fields.is_empty());
    fields.insert("k".to_string(), serde_json::Value::from(1u64));
    fields.insert("k".to_string(), serde_json::Value::from(2u64));
    assert_eq!(fields.len(), 1);
    assert_eq!(fields["k"], serde_json::Value::from(2u64));
}

#[test]
fn a_url_is_written_out_as_it_was_read() {
    for text in ["https://api.github.com/graphql", "http://EXAMPLE.com", "mailto:a@b.c"] {
        let url = url::Url::parse(text).unwrap();
        let written = String::from(url.clone());
        assert_eq!(written, url.as_str());
        assert_eq!(url::Url::parse(&written).unwrap(), url);
        let client = GithubBuilder::new().endpoint_url(text).build().unwrap();
        assert_eq!(client.endpoint_url(), written);
    }
}

#[test]
fn every_byte_is_judged_as_the_http_library_judges_it() {
    for byte in 0u8..=127 {
        let text = String::from_utf8(vec![b'a', byte, b'z']).unwrap();
        let taken = reqwest::header::HeaderValue::from_str(&text).is_ok();
        assert_eq!(is_header_value(&text), taken, "byte {}", byte);
    }
    for text in ["\u{80}", "\u{ff}", "\u{7ff}", "\u{ffff}", "\u{10ffff}"] {
        assert!(reqwest::header::HeaderValue::from_str(text).is_ok());
        assert!(is_header_value(text));
    }
}

#[test]
fn a_cloned_mailbox_is_the_same_mailbox() {
    let mailbox: lettre::message::Mailbox = "Some One <one@example.org>".parse().unwrap();
    assert_eq!(mailbox.clone(), mailbox);
}
