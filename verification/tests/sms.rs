use calrs::email::{BookingDetails, CancellationDetails};
use calrs::sms::{gatewayapi, sevenio, twilio, webhook};
use calrs::sms::{
    check_unsupported, config_from_env, env_wins, pick_config, pick_status, config_from_row, effective_country_code, is_success,
    prepare_notification, secret_to_decrypt, sms_env_active, status_from_env, status_from_row,
    SmsConfig, SmsContext, SmsEnv, SmsError, SmsEvent, StoredConfig, StoredStatus,
};

fn booking() -> BookingDetails {
    BookingDetails {
        event_title: "Product demo".to_string(),
        date: "Monday, 17 August 2026".to_string(),
        start_time: "14:00".to_string(),
        guest_timezone: "Europe/Paris".to_string(),
        guest_language: Some("fr".to_string()),
    }
}

fn env_block() -> SmsEnv {
    SmsEnv {
        any_set: true,
        provider: Some(" sevenio ".to_string()),
        api_key: None,
        api_secret: Some("key".to_string()),
        sender: Some("calrs".to_string()),
        base_url: Some("   ".to_string()),
        default_country_code: None,
    }
}

#[test]
fn the_debug_form_never_shows_the_secret() {
    let cfg = SmsConfig {
        provider: "twilio".to_string(),
        api_key: "AC123".to_string(),
        api_secret: "hunter2".to_string(),
        sender: "+15550001111".to_string(),
        base_url: String::new(),
        default_country_code: "+1".to_string(),
        daily_cap: 0,
    };
    let shown = cfg.redacted_debug();
    assert!(!shown.contains("hunter2"));
    assert_eq!(
        shown,
        "SmsConfig { provider: \"twilio\", api_key: \"AC123\", api_secret: \"<redacted>\", sender: \"+15550001111\", base_url: \"\", default_country_code: \"+1\" }"
    );
    let other = SmsConfig {
        api_secret: "another".to_string(),
        ..cfg.clone()
    };
    assert_eq!(other.redacted_debug(), shown);
}

#[test]
fn debug_quotes_escape_special_characters() {
    let cfg = SmsConfig {
        sender: "a\"b\n".to_string(),
        ..SmsConfig::default()
    };
    assert!(cfg.redacted_debug().contains("sender: \"a\\\"b\\n\""));
}

#[test]
fn every_error_kind_has_its_label_and_sentence() {
    let cases = [
        (SmsError::Auth("m".to_string()), "auth", "authentication rejected by the SMS gateway: m"),
        (SmsError::InvalidRecipient("m".to_string()), "invalid_recipient", "recipient number refused: m"),
        (SmsError::InvalidSender("m".to_string()), "invalid_sender", "sender refused: m"),
        (SmsError::InsufficientCredit("m".to_string()), "insufficient_credit", "insufficient credit: m"),
        (SmsError::RateLimited("m".to_string()), "rate_limited", "rate limited by the SMS gateway: m"),
        (SmsError::Transport("m".to_string()), "transport", "could not reach the SMS gateway: m"),
        (SmsError::Other("m".to_string()), "other", "SMS gateway error: m"),
    ];
    for (err, kind, text) in cases.iter() {
        assert_eq!(err.kind(), *kind);
        assert_eq!(err.to_string(), *text);
        assert_eq!(err.message(), "m");
    }
}

#[test]
fn only_2xx_statuses_are_successes() {
    assert!(is_success(200));
    assert!(is_success(204));
    assert!(is_success(299));
    assert!(!is_success(199));
    assert!(!is_success(300));
    assert!(!is_success(404));
}

#[test]
fn a_gateway_without_a_check_says_so() {
    match check_unsupported() {
        SmsError::Other(m) => assert_eq!(
            m,
            "this gateway has no credential check endpoint; send a test message instead"
        ),
        _ => panic!("unexpected kind"),
    }
}

#[test]
fn events_have_log_names() {
    assert_eq!(SmsEvent::Confirmed.as_str(), "confirmed");
    assert_eq!(SmsEvent::Cancelled.as_str(), "cancelled");
    assert_eq!(SmsEvent::Rescheduled.as_str(), "rescheduled");
    assert_eq!(SmsEvent::Reminder.as_str(), "reminder");
}

#[test]
fn a_context_needs_sms_on_and_a_number() {
    let details = booking();
    assert!(SmsContext::for_booking(&details, Some("+33612345678"), false).is_none());
    assert!(SmsContext::for_booking(&details, None, true).is_none());
    assert!(SmsContext::for_booking(&details, Some("   "), true).is_none());
    let ctx = SmsContext::for_booking(&details, Some(" +33612345678 "), true).unwrap();
    assert_eq!(ctx.phone, "+33612345678");
    assert_eq!(ctx.event_title, "Product demo");
    assert_eq!(ctx.date, "Monday, 17 August 2026");
    assert_eq!(ctx.start_time, "14:00");
    assert_eq!(ctx.timezone, "Europe/Paris");
    assert_eq!(ctx.lang, Some("fr"));

    let cancelled = CancellationDetails {
        event_title: "Call".to_string(),
        date: "Tuesday".to_string(),
        start_time: "09:30".to_string(),
        guest_timezone: "UTC".to_string(),
        guest_language: None,
    };
    assert!(SmsContext::for_cancellation(&cancelled, Some("+33612345678"), false).is_none());
    let ctx = SmsContext::for_cancellation(&cancelled, Some("+33612345678"), true).unwrap();
    assert_eq!(ctx.event_title, "Call");
    assert_eq!(ctx.lang, None);
}

#[test]
fn a_number_that_is_not_e164_is_skipped() {
    let details = booking();
    let ctx = SmsContext::for_booking(&details, Some("0612345678"), true).unwrap();
    assert!(prepare_notification(SmsEvent::Confirmed, &ctx).is_none());
    let ctx = SmsContext::for_booking(&details, Some("+33612345678"), true).unwrap();
    let body = prepare_notification(SmsEvent::Confirmed, &ctx).unwrap();
    assert!(body.contains("Product demo"));
    assert!(body.contains("14:00"));
}

#[test]
fn an_unset_environment_block_gives_no_config() {
    let env = SmsEnv {
        any_set: false,
        provider: None,
        api_key: None,
        api_secret: None,
        sender: None,
        base_url: None,
        default_country_code: None,
    };
    assert!(matches!(config_from_env(&env), Ok(None)));
    assert!(!sms_env_active(&env));
}

#[test]
fn a_full_environment_block_wins() {
    let env = env_block();
    let cfg = config_from_env(&env).unwrap().unwrap();
    assert_eq!(cfg.provider, "sevenio");
    assert_eq!(cfg.api_key, "");
    assert_eq!(cfg.api_secret, "key");
    assert_eq!(cfg.sender, "calrs");
    assert_eq!(cfg.base_url, "");
    assert_eq!(cfg.default_country_code, "+33");
    assert_eq!(cfg.daily_cap, 0);
    assert!(sms_env_active(&env));
}

#[test]
fn an_incomplete_environment_block_is_an_error() {
    let env = SmsEnv {
        api_secret: None,
        ..env_block()
    };
    assert!(config_from_env(&env).is_err());
    assert!(!sms_env_active(&env));
}

#[test]
fn a_stored_row_becomes_a_config_when_it_validates() {
    let row = StoredConfig {
        provider: "gatewayapi".to_string(),
        api_key: None,
        api_secret_enc: Some("c2VjcmV0".to_string()),
        sender: "calrs".to_string(),
        base_url: None,
        default_country_code: "+45".to_string(),
    };
    assert_eq!(secret_to_decrypt(&row), Some("c2VjcmV0"));
    let cfg = config_from_row(row, "secret".to_string()).unwrap();
    assert_eq!(cfg.provider, "gatewayapi");
    assert_eq!(cfg.api_secret, "secret");
    assert_eq!(cfg.base_url, "");
    assert_eq!(cfg.default_country_code, "+45");

    let empty_secret = StoredConfig {
        provider: "gatewayapi".to_string(),
        api_key: None,
        api_secret_enc: Some(String::new()),
        sender: "calrs".to_string(),
        base_url: None,
        default_country_code: "+45".to_string(),
    };
    assert_eq!(secret_to_decrypt(&empty_secret), None);
    assert!(config_from_row(empty_secret, String::new()).is_err());
}

#[test]
fn the_admin_status_hides_the_secret_and_says_where_it_comes_from() {
    let cfg = SmsConfig {
        provider: "sevenio".to_string(),
        api_secret: "key".to_string(),
        sender: "calrs".to_string(),
        default_country_code: "+49".to_string(),
        ..SmsConfig::default()
    };
    let status = status_from_env(cfg);
    assert_eq!(status.provider_label, "seven.io");
    assert!(status.enabled && status.from_env);

    let row = StoredStatus {
        provider: "webhook".to_string(),
        api_key: None,
        sender: String::new(),
        base_url: Some("https://relay.example.test".to_string()),
        default_country_code: "+33".to_string(),
        enabled: false,
    };
    let status = status_from_row(row);
    assert_eq!(status.provider_label, "Generic webhook");
    assert_eq!(status.base_url, "https://relay.example.test");
    assert_eq!(status.api_key, "");
    assert!(!status.enabled && !status.from_env);
}

#[test]
fn the_country_code_falls_back_to_the_default() {
    assert_eq!(effective_country_code(None), "+33");
    assert_eq!(effective_country_code(Some("+49".to_string())), "+49");
    assert_eq!(effective_country_code(Some("49".to_string())), "+33");
}

#[test]
fn one_status_reads_the_same_on_every_gateway() {
    for status in [400u16, 401, 403, 404, 429, 500, 503] {
        let kinds = [
            gatewayapi::parse_error(status, "x", None).kind(),
            sevenio::http_error(status, "x").kind(),
            webhook::delivery_error(status, "x").kind(),
            twilio::parse_error(status, "x", None).kind(),
        ];
        assert!(kinds.iter().all(|k| *k == kinds[0]), "{}: {:?}", status, kinds);
    }
}

fn named(provider: &str) -> SmsConfig {
    SmsConfig {
        provider: provider.to_string(),
        ..SmsConfig::default()
    }
}

#[test]
fn a_valid_environment_block_overrides_the_stored_row() {
    assert!(env_wins(&Ok(Some(named("sevenio")))));
    assert!(!env_wins(&Ok(None)));
    assert!(!env_wins(&Err("bad".to_string())));

    let picked = pick_config(Ok(Some(named("sevenio"))), Some(Ok(named("twilio"))));
    assert_eq!(picked.unwrap().provider, "sevenio");
    // An unset or invalid block falls back to the row.
    let picked = pick_config(Ok(None), Some(Ok(named("twilio"))));
    assert_eq!(picked.unwrap().provider, "twilio");
    let picked = pick_config(Err("bad".to_string()), Some(Ok(named("twilio"))));
    assert_eq!(picked.unwrap().provider, "twilio");
    // A row that no longer validates, or no row, means not configured.
    assert!(pick_config(Ok(None), Some(Err("incomplete".to_string()))).is_none());
    assert!(pick_config(Err("bad".to_string()), None).is_none());
}

#[test]
fn the_admin_view_prefers_the_environment_then_any_stored_row() {
    let row = || StoredStatus {
        provider: "twilio".to_string(),
        api_key: Some("AC1".to_string()),
        sender: "calrs".to_string(),
        base_url: None,
        default_country_code: "+33".to_string(),
        enabled: false,
    };
    let s = pick_status(Some(named("sevenio")), Some(row())).unwrap();
    assert_eq!(s.provider, "sevenio");
    assert!(s.from_env && s.enabled);
    let s = pick_status(None, Some(row())).unwrap();
    assert_eq!(s.provider, "twilio");
    assert_eq!(s.provider_label, "Twilio");
    assert!(!s.from_env && !s.enabled);
    assert!(pick_status(None, None).is_none());
}
