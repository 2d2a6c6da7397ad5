use calrs::sms::gatewayapi::{
    first_id, parse_error, GatewayApiError, GatewayApiProvider, GatewayApiReply,
};
use calrs::sms::phone;
use calrs::sms::{SmsConfig, SmsError};

fn reply(code: Option<&str>, message: Option<&str>) -> Option<GatewayApiError> {
    Some(GatewayApiError {
        code: code.map(|c| c.to_string()),
        message: message.map(|m| m.to_string()),
    })
}

#[test]
fn maps_rejected_credentials_and_blocked_ip() {
    let body = r#"{"code": "0x0213", "message": "Invalid API key", "incident_uuid": "abc"}"#;
    match parse_error(401, body, reply(Some("0x0213"), Some("Invalid API key"))) {
        SmsError::Auth(m) => assert!(m.contains("Invalid API key") && m.contains("0x0213")),
        other => panic!("unexpected mapping: {:?}", other),
    }
    assert!(matches!(
        parse_error(403, "{}", reply(None, None)),
        SmsError::Auth(_)
    ));
}

#[test]
fn keeps_the_gateway_message_for_other_statuses() {
    let body = r#"{"code": "0x0501", "message": "Invalid recipient"}"#;
    assert!(matches!(
        parse_error(400, body, reply(Some("0x0501"), Some("Invalid recipient"))),
        SmsError::Other(_)
    ));
    assert!(matches!(
        parse_error(502, "{}", reply(None, None)),
        SmsError::Transport(_)
    ));
}

#[test]
fn falls_back_to_the_raw_body_when_it_is_not_json() {
    match parse_error(400, "Bad Request", None) {
        SmsError::Other(m) => assert_eq!(m, "Bad Request"),
        other => panic!("unexpected mapping: {:?}", other),
    }
}

#[test]
fn recipients_go_on_the_wire_without_the_plus() {
    assert_eq!(phone::without_plus("+4512345678"), "4512345678");
}

#[test]
fn the_error_message_joins_message_and_code() {
    match parse_error(422, "{}", reply(Some("0x0100"), Some("Invalid JSON"))) {
        SmsError::Other(m) => assert_eq!(m, "Invalid JSON (0x0100)"),
        other => panic!("unexpected mapping: {:?}", other),
    }
    match parse_error(429, "{}", reply(None, Some("Slow down"))) {
        SmsError::RateLimited(m) => assert_eq!(m, "Slow down"),
        other => panic!("unexpected mapping: {:?}", other),
    }
    match parse_error(400, " {} ", reply(Some("0x0001"), None)) {
        SmsError::Other(m) => assert_eq!(m, "{}"),
        other => panic!("unexpected mapping: {:?}", other),
    }
}

#[test]
fn the_adapter_builds_its_request() {
    let cfg = SmsConfig {
        provider: "gatewayapi".to_string(),
        api_secret: "tok".to_string(),
        sender: " calrs ".to_string(),
        base_url: "https://gatewayapi.eu/".to_string(),
        ..SmsConfig::default()
    };
    let p = GatewayApiProvider::new(&cfg);
    assert_eq!(p.send_url(), "https://gatewayapi.eu/rest/mtsms");
    assert_eq!(p.authorization(), "Token tok");
    let req = p.send_request("+4512345678", "hello");
    assert_eq!(req.sender, "calrs");
    assert_eq!(req.message, "hello");
    assert_eq!(req.msisdn, "4512345678");

    let ok = p
        .interpret_send(
            200,
            "{}",
            None,
            Some(GatewayApiReply {
                ids: Some(vec!["12345".to_string(), "12346".to_string()]),
                currency: Some("DKK".to_string()),
            }),
        )
        .unwrap();
    assert_eq!(ok.message_id.as_deref(), Some("12345"));
    assert_eq!(ok.currency.as_deref(), Some("DKK"));
    assert!(matches!(
        p.interpret_send(401, "no", None, None),
        Err(SmsError::Auth(_))
    ));
    assert!(matches!(p.check(), Err(SmsError::Other(_))));
}

#[test]
fn the_receipt_keeps_the_first_listed_id() {
    assert_eq!(
        first_id(&Some(vec!["\"a\"".to_string(), "2".to_string()])).as_deref(),
        Some("\"a\"")
    );
    assert_eq!(first_id(&Some(Vec::new())), None);
    assert_eq!(first_id(&None), None);
}
