use slick_queue_api::params::{PageScoreParameters, ScoreParameters, SiteScoreParameters};
use slick_queue_api::wire::{from_json, to_json};

fn page(json: &str) -> PageScoreParameters {
    PageScoreParameters::from_json(json.to_string()).expect("object text")
}

fn site(json: &str) -> SiteScoreParameters {
    SiteScoreParameters::from_json(json.to_string()).expect("object text")
}

#[test]
fn parameters_accept_object_text() {
    let p = page("{\"some_page_field\":\"https://example.com\"}");
    assert_eq!(p.json(), "{\"some_page_field\":\"https://example.com\"}");
    let s = site("{}");
    assert_eq!(s.json(), "{}");
}

#[test]
fn parameters_reject_non_object_text() {
    assert!(PageScoreParameters::from_json(String::new()).is_none());
    assert!(PageScoreParameters::from_json("{".to_string()).is_none());
    assert!(PageScoreParameters::from_json("null".to_string()).is_none());
    assert!(SiteScoreParameters::from_json("[1]".to_string()).is_none());
    assert!(SiteScoreParameters::from_json("\"x\"".to_string()).is_none());
}

#[test]
fn page_envelope_fills_only_page() {
    let e = ScoreParameters::from_page(page("{\"a\":1}"));
    assert_eq!(e.page().map(|p| p.json()), Some("{\"a\":1}"));
    assert!(e.site().is_none());
}

#[test]
fn site_envelope_fills_only_site() {
    let e = ScoreParameters::from_site(site("{\"b\":2}"));
    assert!(e.page().is_none());
    assert_eq!(e.site().map(|s| s.json()), Some("{\"b\":2}"));
}

#[test]
fn page_envelope_text() {
    let e = ScoreParameters::from_page(page("{\"some_page_field\":\"https://example.com\"}"));
    assert_eq!(
        to_json(&e),
        "{\"page\":{\"some_page_field\":\"https://example.com\"},\"site\":null}"
    );
}

#[test]
fn site_envelope_text() {
    let e = ScoreParameters::from_site(site("{\"url\":\"https://example.com\"}"));
    assert_eq!(to_json(&e), "{\"page\":null,\"site\":{\"url\":\"https://example.com\"}}");
}

#[test]
fn page_envelope_round_trip() {
    let e = ScoreParameters::from_page(page("{\"x\":{\"site\":null}}"));
    let back = from_json(&to_json(&e)).expect("readable");
    assert_eq!(back.page().map(|p| p.json()), Some("{\"x\":{\"site\":null}}"));
    assert!(back.site().is_none());
}

#[test]
fn site_envelope_round_trip() {
    let e = ScoreParameters::from_site(site("{\"page\":null}"));
    let back = from_json(&to_json(&e)).expect("readable");
    assert!(back.page().is_none());
    assert_eq!(back.site().map(|s| s.json()), Some("{\"page\":null}"));
}

#[test]
fn round_trip_with_non_ascii_payload() {
    let e = ScoreParameters::from_page(page("{\"t\":\"caf\u{e9} \u{1f600}\"}"));
    let back = from_json(&to_json(&e)).expect("readable");
    assert_eq!(back.page().map(|p| p.json()), Some("{\"t\":\"caf\u{e9} \u{1f600}\"}"));
}

#[test]
fn envelope_text_not_read_otherwise() {
    assert!(from_json("").is_none());
    assert!(from_json("{\"page\":null,\"site\":null}").is_none());
    assert!(from_json("{\"page\":{},\"site\":{}}").is_none());
    assert!(from_json("{\"site\":{}}").is_none());
    assert!(from_json("{\"page\":{}}").is_none());
    assert!(from_json("{\"page\":null,\"site\":x}").is_none());
    assert!(from_json("{\"page\":x,\"site\":null}").is_none());
}

#[test]
fn smallest_envelope_texts() {
    let p = from_json("{\"page\":{},\"site\":null}").expect("page");
    assert_eq!(p.page().map(|x| x.json()), Some("{}"));
    let s = from_json("{\"page\":null,\"site\":{}}").expect("site");
    assert_eq!(s.site().map(|x| x.json()), Some("{}"));
}
