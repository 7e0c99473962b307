use slick_queue_api::params::{PageScoreParameters, ScoreParameters, SiteScoreParameters};
use slick_queue_api::publish::{
    handle_queue_page, handle_queue_site, queue_response, send_score_request_to_queue,
    Confirmation, PublishError, PublishOutcome,
};

fn page(json: &str) -> PageScoreParameters {
    PageScoreParameters::from_json(json.to_string()).expect("object text")
}

fn site(json: &str) -> SiteScoreParameters {
    SiteScoreParameters::from_json(json.to_string()).expect("object text")
}

#[test]
fn page_request_publishes_page_envelope() {
    let r = handle_queue_page(page("{\"some_page_field\":\"https://example.com\"}"));
    assert_eq!(r.exchange, "");
    assert_eq!(r.routing_key, "score-requests");
    assert_eq!(
        r.payload,
        b"{\"page\":{\"some_page_field\":\"https://example.com\"},\"site\":null}".to_vec()
    );
    assert!(!r.mandatory);
    assert!(!r.immediate);
}

#[test]
fn site_request_publishes_site_envelope() {
    let r = handle_queue_site(site("{\"url\":\"https://example.com\"}"));
    assert_eq!(r.exchange, "");
    assert_eq!(r.routing_key, "score-requests");
    assert_eq!(
        r.payload,
        b"{\"page\":null,\"site\":{\"url\":\"https://example.com\"}}".to_vec()
    );
    assert!(!r.mandatory);
    assert!(!r.immediate);
}

#[test]
fn payload_is_utf8_of_envelope() {
    let e = ScoreParameters::from_page(page("{\"t\":\"\u{e9}\"}"));
    let r = send_score_request_to_queue(&e);
    assert_eq!(
        String::from_utf8(r.payload).expect("utf-8"),
        "{\"page\":{\"t\":\"\u{e9}\"},\"site\":null}"
    );
}

#[test]
fn identical_requests_give_two_publishes() {
    let first = handle_queue_page(page("{\"a\":1}"));
    let second = handle_queue_page(page("{\"a\":1}"));
    assert_eq!(first.payload, second.payload);
    assert_eq!(first.routing_key, second.routing_key);
    let answers = [
        queue_response(PublishOutcome::Confirmed(Confirmation::Ack)),
        queue_response(PublishOutcome::Confirmed(Confirmation::Ack)),
    ];
    assert!(answers.iter().all(|a| a.is_ok()));
}

#[test]
fn acknowledged_publish_is_queued() {
    let r = queue_response(PublishOutcome::Confirmed(Confirmation::Ack)).expect("queued");
    assert_eq!(r.code, 200);
    assert_eq!(r.message, "Queued");
    assert_eq!(r.to_json(), "{\"code\":200,\"message\":\"Queued\"}");
}

#[test]
fn unconfirmed_channel_publish_fails() {
    let r = queue_response(PublishOutcome::Confirmed(Confirmation::NotRequested));
    assert_eq!(r.err(), Some(PublishError::Unconfirmed));
}

#[test]
fn refused_publish_fails() {
    let r = queue_response(PublishOutcome::Confirmed(Confirmation::Nack));
    assert_eq!(r.err(), Some(PublishError::Rejected));
}

#[test]
fn unsent_publish_fails() {
    let r = queue_response(PublishOutcome::SendFailed);
    assert_eq!(r.err(), Some(PublishError::Send));
}

#[test]
fn unconfirmable_publish_fails() {
    let r = queue_response(PublishOutcome::ConfirmFailed);
    assert_eq!(r.err(), Some(PublishError::Confirm));
}
