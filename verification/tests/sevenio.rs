use calrs::sms::sevenio::{
    http_error, parse_response, parse_status, SevenIoProvider, SevenMessage, SevenResponse,
};
use calrs::sms::{SmsConfig, SmsError};

fn status_only(code: &str) -> Option<SevenResponse> {
    Some(SevenResponse {
        success: Some(code.to_string()),
        messages: None,
    })
}

const OK_BODY: &str = r#"{"success":"100","total_price":0.075,"balance":593.994,
    "messages":[{"id":"77229318510","recipient":"49123456789","parts":1,
    "price":0.075,"success":true,"error":null,"error_text":null}]}"#;

fn ok_reply() -> Option<SevenResponse> {
    Some(SevenResponse {
        success: Some("100".to_string()),
        messages: Some(vec![SevenMessage {
            id: Some("77229318510".to_string()),
            parts: Some(1),
            success: Some(true),
            error_text: None,
        }]),
    })
}

#[test]
fn a_successful_send_yields_the_message_id_and_parts() {
    let receipt = parse_response(OK_BODY, ok_reply()).expect("should parse");
    assert_eq!(receipt.message_id.as_deref(), Some("77229318510"));
    assert_eq!(receipt.segments, Some(1));
    assert_eq!(receipt.currency.as_deref(), Some("EUR"));
}

#[test]
fn treats_an_http_200_auth_failure_as_an_error() {
    let err = parse_response(r#"{"success":"900"}"#, status_only("900")).unwrap_err();
    assert!(matches!(err, SmsError::Auth(_)), "got {:?}", err);
}

#[test]
fn maps_credit_and_recipient_failures() {
    assert!(matches!(
        parse_response(r#"{"success":"500"}"#, status_only("500")).unwrap_err(),
        SmsError::InsufficientCredit(_)
    ));
    assert!(matches!(
        parse_response(r#"{"success":"202"}"#, status_only("202")).unwrap_err(),
        SmsError::InvalidRecipient(_)
    ));
}

#[test]
fn rejects_a_per_recipient_failure_inside_an_accepted_batch() {
    let body = r#"{"success":"100","messages":[{"id":"1","success":false,
        "error_text":"invalid number"}]}"#;
    let parsed = Some(SevenResponse {
        success: Some("100".to_string()),
        messages: Some(vec![SevenMessage {
            id: Some("1".to_string()),
            parts: None,
            success: Some(false),
            error_text: Some("invalid number".to_string()),
        }]),
    });
    match parse_response(body, parsed).unwrap_err() {
        SmsError::InvalidRecipient(m) => assert_eq!(m, "invalid number"),
        other => panic!("unexpected mapping: {:?}", other),
    }
}

#[test]
fn falls_back_when_the_body_is_not_json() {
    assert!(matches!(
        parse_response("<html>oops</html>", None).unwrap_err(),
        SmsError::Other(_)
    ));
}

#[test]
fn status_codes_carry_their_detail() {
    assert!(parse_status("100", None).is_ok());
    match parse_status("900", Some("  bad key ")) {
        Err(SmsError::Auth(m)) => assert_eq!(m, "bad key (code 900)"),
        other => panic!("unexpected mapping: {:?}", other),
    }
    match parse_status("301", Some("   ")) {
        Err(SmsError::Other(m)) => assert_eq!(m, "code 301"),
        other => panic!("unexpected mapping: {:?}", other),
    }
    assert!(matches!(parse_status("902", None), Err(SmsError::Auth(_))));
    assert!(matches!(parse_status("903", None), Err(SmsError::Auth(_))));
    assert!(matches!(
        parse_status("101", None),
        Err(SmsError::InvalidRecipient(_))
    ));
}

#[test]
fn a_reply_without_a_code_is_refused() {
    let parsed = Some(SevenResponse {
        success: None,
        messages: None,
    });
    match parse_response("{}", parsed) {
        Err(SmsError::Other(m)) => assert_eq!(m, "code "),
        other => panic!("unexpected mapping: {:?}", other),
    }
}

#[test]
fn non_2xx_replies_map_by_status() {
    assert!(matches!(http_error(401, "x"), SmsError::Auth(_)));
    assert!(matches!(http_error(403, "x"), SmsError::Auth(_)));
    assert!(matches!(http_error(429, "x"), SmsError::RateLimited(_)));
    assert!(matches!(http_error(502, "x"), SmsError::Transport(_)));
    match http_error(404, "  not found  ") {
        SmsError::Other(m) => assert_eq!(m, "not found"),
        other => panic!("unexpected mapping: {:?}", other),
    }
}

#[test]
fn the_adapter_sends_digits_and_checks_the_balance() {
    let cfg = SmsConfig {
        provider: "sevenio".to_string(),
        api_secret: "key".to_string(),
        sender: " calrs ".to_string(),
        ..SmsConfig::default()
    };
    let p = SevenIoProvider::new(&cfg);
    assert_eq!(p.send_url(), "https://gateway.seven.io/api/sms");
    assert_eq!(p.balance_url(), "https://gateway.seven.io/api/balance");
    assert_eq!(
        p.headers(),
        vec![
            ("X-Api-Key".to_string(), "key".to_string()),
            ("Accept".to_string(), "application/json".to_string()),
        ]
    );
    assert_eq!(
        p.send_form("+49123456789", "hi"),
        vec![
            ("to".to_string(), "49123456789".to_string()),
            ("text".to_string(), "hi".to_string()),
            ("from".to_string(), "calrs".to_string()),
        ]
    );
    let anonymous = SevenIoProvider::new(&SmsConfig {
        sender: String::new(),
        ..cfg.clone()
    });
    assert_eq!(anonymous.send_form("+49123456789", "hi").len(), 2);

    assert!(p.interpret_check(200, "593.994").is_ok());
    assert!(matches!(p.interpret_check(200, " 900 "), Err(SmsError::Auth(_))));
    assert!(matches!(p.interpret_check(500, "down"), Err(SmsError::Auth(_))));
    assert!(p.interpret_send(200, OK_BODY, ok_reply()).is_ok());
    assert!(matches!(
        p.interpret_send(429, "slow down", None),
        Err(SmsError::RateLimited(_))
    ));
}
