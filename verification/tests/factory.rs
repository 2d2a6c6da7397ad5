use calrs::sms::factory::kinds;
use calrs::sms::factory::{
    base_url, build_provider, default_base_url, label, provider_spec, provider_specs,
    validate_config, Provider,
};
use calrs::sms::{SmsConfig, SmsError};

fn config(provider: &str) -> SmsConfig {
    SmsConfig {
        provider: provider.to_string(),
        api_key: String::new(),
        api_secret: "secret".to_string(),
        sender: "calrs".to_string(),
        base_url: String::new(),
        default_country_code: "+33".to_string(),
        daily_cap: 0,
    }
}

#[test]
fn every_spec_builds_and_labels() {
    for spec in provider_specs() {
        assert_eq!(label(spec.kind), spec.label);
        let mut cfg = config(spec.kind);
        cfg.api_key = "AC123".to_string();
        cfg.base_url = "https://example.test".to_string();
        let provider = build_provider(&cfg, false).expect("adapter should build");
        assert_eq!(provider.kind(), spec.kind);
    }
}

#[test]
fn twilio_needs_its_account_sid() {
    let cfg = config(kinds::TWILIO);
    assert!(validate_config(&cfg).is_err());

    let cfg = SmsConfig {
        api_key: "AC123".to_string(),
        ..config(kinds::TWILIO)
    };
    assert!(validate_config(&cfg).is_ok());
}

#[test]
fn token_only_gateways_need_no_account_id() {
    assert!(validate_config(&config(kinds::GATEWAYAPI)).is_ok());
    assert!(validate_config(&config(kinds::SEVENIO)).is_ok());
}

#[test]
fn a_secret_is_required_except_for_the_webhook() {
    let cfg = SmsConfig {
        api_secret: String::new(),
        ..config(kinds::SEVENIO)
    };
    assert!(validate_config(&cfg).is_err());

    // An unauthenticated bridge on localhost is a legitimate setup.
    let cfg = SmsConfig {
        api_secret: String::new(),
        base_url: "http://127.0.0.1:8080/sms".to_string(),
        ..config(kinds::WEBHOOK)
    };
    assert!(validate_config(&cfg).is_ok());
}

#[test]
fn the_webhook_needs_a_url_and_every_endpoint_must_be_http() {
    assert!(validate_config(&config(kinds::WEBHOOK)).is_err());

    let cfg = SmsConfig {
        base_url: "ftp://example.test".to_string(),
        ..config(kinds::WEBHOOK)
    };
    assert!(validate_config(&cfg).is_err());
}

#[test]
fn unknown_providers_and_country_codes_are_rejected() {
    assert!(validate_config(&config("carrier-pigeon")).is_err());
    assert!(build_provider(&config("carrier-pigeon"), false).is_err());

    let cfg = SmsConfig {
        default_country_code: "33".to_string(),
        ..config(kinds::SEVENIO)
    };
    assert!(validate_config(&cfg).is_err());
}

#[test]
fn base_url_falls_back_to_the_documented_default_and_trims_slashes() {
    assert_eq!(base_url(&config(kinds::TWILIO)), "https://api.twilio.com");
    let cfg = SmsConfig {
        base_url: "https://gatewayapi.eu/".to_string(),
        ..config(kinds::GATEWAYAPI)
    };
    assert_eq!(base_url(&cfg), "https://gatewayapi.eu");
}

#[test]
fn the_registry_lists_the_four_gateways_in_order() {
    let kinds_listed: Vec<&str> = provider_specs().iter().map(|s| s.kind).collect();
    assert_eq!(
        kinds_listed,
        vec![kinds::TWILIO, kinds::GATEWAYAPI, kinds::SEVENIO, kinds::WEBHOOK]
    );
    for spec in provider_specs() {
        let found = provider_spec(spec.kind).expect("registered kind is found");
        assert_eq!(found.label, spec.label);
    }
    assert!(provider_spec("carrier-pigeon").is_none());
}

#[test]
fn unknown_kinds_are_labelled_unknown_and_have_no_default_url() {
    assert_eq!(label("carrier-pigeon"), "Unknown");
    assert_eq!(default_base_url("carrier-pigeon"), "");
    assert_eq!(default_base_url(kinds::WEBHOOK), "");
    assert_eq!(default_base_url(kinds::GATEWAYAPI), "https://gatewayapi.com");
    assert_eq!(default_base_url(kinds::SEVENIO), "https://gateway.seven.io");
}

#[test]
fn a_configured_base_url_loses_every_trailing_slash() {
    let cfg = SmsConfig {
        base_url: "  https://relay.example.test///  ".to_string(),
        ..config(kinds::WEBHOOK)
    };
    assert_eq!(base_url(&cfg), "https://relay.example.test");
}

#[test]
fn the_built_adapter_carries_the_trimmed_configuration() {
    let cfg = SmsConfig {
        provider: " twilio ".to_string(),
        api_key: " AC123 ".to_string(),
        sender: " +15550001111 ".to_string(),
        ..config(kinds::TWILIO)
    };
    match build_provider(&cfg, true) {
        Ok(Provider::Twilio(p)) => {
            assert_eq!(p.account_sid, "AC123");
            assert_eq!(p.from, "+15550001111");
            assert_eq!(p.auth_token, "secret");
            // The default endpoint is looked up by the kind as written, so a
            // padded kind gets none.
            assert_eq!(p.base_url, "");
            assert!(p.trial);
        }
        _ => panic!("a Twilio adapter was expected"),
    }
}

#[test]
fn an_unknown_provider_is_named_in_the_error() {
    match build_provider(&config("carrier-pigeon"), false) {
        Err(SmsError::Other(m)) => assert_eq!(m, "unknown SMS provider 'carrier-pigeon'"),
        _ => panic!("an unknown provider must be refused"),
    }
}

#[test]
fn a_configuration_that_validates_always_builds() {
    let cases = [
        SmsConfig {
            api_key: "AC123".to_string(),
            ..config(kinds::TWILIO)
        },
        config(kinds::GATEWAYAPI),
        config(kinds::SEVENIO),
        SmsConfig {
            api_secret: String::new(),
            base_url: "http://127.0.0.1:8080/sms".to_string(),
            ..config(kinds::WEBHOOK)
        },
    ];
    for cfg in cases.iter() {
        assert!(validate_config(cfg).is_ok(), "{}", cfg.provider);
        assert!(build_provider(cfg, false).is_ok(), "{}", cfg.provider);
    }
}
