use calrs::sms::webhook::{delivery_error, signature_header, WebhookProvider, WebhookReply};
use calrs::sms::{SmsConfig, SmsError};

fn provider(secret: &str) -> WebhookProvider {
    WebhookProvider::new(&SmsConfig {
        provider: "webhook".to_string(),
        api_secret: secret.to_string(),
        sender: " calrs ".to_string(),
        base_url: " https://relay.example.test/sms ".to_string(),
        ..SmsConfig::default()
    })
}

#[test]
fn a_failed_delivery_names_the_status_and_its_reason() {
    match delivery_error(404, "  no such route  ") {
        SmsError::Other(m) => assert_eq!(m, "webhook returned 404 Not Found: no such route"),
        other => panic!("unexpected mapping: {:?}", other),
    }
    match delivery_error(503, "") {
        SmsError::Transport(m) => assert_eq!(m, "webhook returned 503 Service Unavailable: "),
        other => panic!("unexpected mapping: {:?}", other),
    }
    assert!(matches!(delivery_error(401, ""), SmsError::Auth(_)));
    assert!(matches!(delivery_error(429, ""), SmsError::RateLimited(_)));
    match delivery_error(599, "x") {
        SmsError::Transport(m) => assert_eq!(m, "webhook returned 599 <unknown status code>: x"),
        other => panic!("unexpected mapping: {:?}", other),
    }
}

#[test]
fn the_signature_header_names_the_algorithm() {
    assert_eq!(signature_header("abc123"), "sha256=abc123");
}

#[test]
fn the_adapter_posts_its_payload_and_signs_only_with_a_secret() {
    let p = provider("s3cret");
    assert_eq!(p.url, "https://relay.example.test/sms");
    assert!(p.signs());
    assert!(!provider("").signs());
    let payload = p.payload("+33612345678", "hello");
    assert_eq!(payload.to, "+33612345678");
    assert_eq!(payload.text, "hello");
    assert_eq!(payload.sender, "calrs");
}

#[test]
fn any_2xx_is_a_delivery_and_keeps_the_receiver_id() {
    let p = provider("");
    let receipt = p
        .interpret_send(
            202,
            "{\"id\":\"m-1\"}",
            Some(WebhookReply {
                id: Some("m-1".to_string()),
            }),
        )
        .unwrap();
    assert_eq!(receipt.message_id.as_deref(), Some("m-1"));
    assert!(receipt.segments.is_none() && receipt.currency.is_none());
    let bare = p.interpret_send(200, "ok", None).unwrap();
    assert!(bare.message_id.is_none());
    assert!(matches!(
        p.interpret_send(500, "boom", None),
        Err(SmsError::Transport(_))
    ));
    assert!(matches!(p.check(), Err(SmsError::Other(_))));
}

#[test]
fn the_body_is_signed_with_hmac_sha256_of_the_secret() {
    // RFC 4231, test case 2.
    let p = provider("Jefe");
    assert_eq!(
        p.signature_for(b"what do ya want for nothing?").as_deref(),
        Some("sha256=5bdcc146bf60754e6a042426089575c75a003f089d2739839dec58b964ec3843")
    );
    assert_eq!(provider("").signature_for(b"anything"), None);
}
