//! Construct a [`Provider`] from an `sms_config` row, and describe each
//! gateway well enough that the admin panel can render its form generically.
//!
//! Adding a gateway is: one adapter file, one [`ProviderSpec`] entry, one arm
//! in [`build_provider`] and [`validate_config`]. No template changes.
use vstd::prelude::*;

use super::gatewayapi::GatewayApiProvider;
use super::phone::{is_valid_country_code, valid_country_code};
use super::sevenio::SevenIoProvider;
use super::twilio::TwilioProvider;
use super::webhook::WebhookProvider;
use super::{SmsConfig, SmsError};
use crate::text::{
    concat2, concat3, starts_with, trim_start, str_eq, str_starts_with, trim, trim_end_char,
    trim_end_char_str, trim_str,
};

pub mod kinds;

verus! {

/// What a gateway calls its fields, and which of them it needs.
///
/// The admin form is rendered from this: the same four inputs are relabelled
/// per provider ("Account SID" or nothing, "Auth token" or "API key",
/// "From number" or "Sender name"), which is why adding a gateway does not
/// touch the admin template.
#[derive(Debug, Clone, Copy)]
pub struct ProviderSpec {
    pub kind: &'static str,
    pub label: &'static str,
    pub docs_url: &'static str,
    /// Label for the non-secret identifier, or `None` when unused.
    pub api_key_label: Option<&'static str>,
    pub api_secret_label: &'static str,
    pub sender_label: &'static str,
    pub sender_hint: &'static str,
    /// Label for the endpoint override, or `None` when the gateway has a
    /// single fixed endpoint.
    pub base_url_label: Option<&'static str>,
    pub base_url_hint: &'static str,
    pub base_url_required: bool,
    pub sender_required: bool,
    /// Whether a credential check is possible without sending a message.
    pub supports_check: bool,
}

/// Entry `i` of the registry, one per supported gateway.
pub open spec fn provider_entry(i: int) -> ProviderSpec {
    if i == 0 {
        ProviderSpec {
            kind: kinds::TWILIO,
            label: "Twilio",
            docs_url: "https://www.twilio.com/docs/sms/api",
            api_key_label: Some("Account SID"),
            api_secret_label: "Auth token",
            sender_label: "Sender",
            sender_hint: "A Twilio number in E.164 format (+15551234567), or an alphanumeric sender ID where the destination country allows one.",
            base_url_label: Some("API base URL"),
            base_url_hint: "Optional. Defaults to https://api.twilio.com. Use https, the credential travels on this connection.",
            base_url_required: false,
            sender_required: true,
            supports_check: true,
        }
    } else if i == 1 {
        ProviderSpec {
            kind: kinds::GATEWAYAPI,
            label: "GatewayAPI",
            docs_url: "https://gatewayapi.com/docs/apis/rest/",
            api_key_label: None,
            api_secret_label: "API token",
            sender_label: "Sender",
            sender_hint: "Up to 11 alphanumeric characters, or 15 digits.",
            base_url_label: Some("Region base URL"),
            base_url_hint: "Optional. Defaults to https://gatewayapi.com; use https://gatewayapi.eu to keep traffic in the EU.",
            base_url_required: false,
            sender_required: true,
            supports_check: false,
        }
    } else if i == 2 {
        ProviderSpec {
            kind: kinds::SEVENIO,
            label: "seven.io",
            docs_url: "https://docs.seven.io/en/rest-api/endpoints/sms",
            api_key_label: None,
            api_secret_label: "API key",
            sender_label: "Sender",
            sender_hint: "Up to 11 alphanumeric characters, or 16 digits.",
            base_url_label: Some("API base URL"),
            base_url_hint: "Optional. Defaults to https://gateway.seven.io.",
            base_url_required: false,
            sender_required: true,
            supports_check: true,
        }
    } else {
        ProviderSpec {
            kind: kinds::WEBHOOK,
            label: "Generic webhook",
            docs_url: "",
            api_key_label: None,
            api_secret_label: "HMAC secret",
            sender_label: "Sender",
            sender_hint: "Optional. Passed through to your endpoint as \"sender\".",
            base_url_label: Some("Webhook URL"),
            base_url_hint: "calrs POSTs {\"to\", \"text\", \"sender\"} here and expects 2xx back.",
            base_url_required: true,
            sender_required: false,
            supports_check: false,
        }
    }
}

/// The registry of supported gateways, in the order the admin panel lists
/// them.
pub open spec fn provider_table() -> Seq<ProviderSpec> {
    Seq::new(4, |i: int| provider_entry(i))
}

/// Entry `i` of the registry.
fn entry(i: usize) -> (r: ProviderSpec)
    requires
        i < 4,
    ensures
        r == provider_entry(i as int),
{
    match i {
        0 => ProviderSpec {
            kind: kinds::TWILIO,
            label: "Twilio",
            docs_url: "https://www.twilio.com/docs/sms/api",
            api_key_label: Some("Account SID"),
            api_secret_label: "Auth token",
            sender_label: "Sender",
            sender_hint: "A Twilio number in E.164 format (+15551234567), or an alphanumeric sender ID where the destination country allows one.",
            base_url_label: Some("API base URL"),
            base_url_hint: "Optional. Defaults to https://api.twilio.com. Use https, the credential travels on this connection.",
            base_url_required: false,
            sender_required: true,
            supports_check: true,
        },
        1 => ProviderSpec {
            kind: kinds::GATEWAYAPI,
            label: "GatewayAPI",
            docs_url: "https://gatewayapi.com/docs/apis/rest/",
            api_key_label: None,
            api_secret_label: "API token",
            sender_label: "Sender",
            sender_hint: "Up to 11 alphanumeric characters, or 15 digits.",
            base_url_label: Some("Region base URL"),
            base_url_hint: "Optional. Defaults to https://gatewayapi.com; use https://gatewayapi.eu to keep traffic in the EU.",
            base_url_required: false,
            sender_required: true,
            supports_check: false,
        },
        2 => ProviderSpec {
            kind: kinds::SEVENIO,
            label: "seven.io",
            docs_url: "https://docs.seven.io/en/rest-api/endpoints/sms",
            api_key_label: None,
            api_secret_label: "API key",
            sender_label: "Sender",
            sender_hint: "Up to 11 alphanumeric characters, or 16 digits.",
            base_url_label: Some("API base URL"),
            base_url_hint: "Optional. Defaults to https://gateway.seven.io.",
            base_url_required: false,
            sender_required: true,
            supports_check: true,
        },
        _ => ProviderSpec {
            kind: kinds::WEBHOOK,
            label: "Generic webhook",
            docs_url: "",
            api_key_label: None,
            api_secret_label: "HMAC secret",
            sender_label: "Sender",
            sender_hint: "Optional. Passed through to your endpoint as \"sender\".",
            base_url_label: Some("Webhook URL"),
            base_url_hint: "calrs POSTs {\"to\", \"text\", \"sender\"} here and expects 2xx back.",
            base_url_required: true,
            sender_required: false,
            supports_check: false,
        },
    }
}

/// The registry of supported gateways.
pub fn provider_specs() -> (r: Vec<ProviderSpec>)
    ensures
        r@ == provider_table(),
{
    let mut r: Vec<ProviderSpec> = Vec::new();
    let mut i: usize = 0;
    while i < 4
        invariant
            i <= 4,
            r@ == provider_table().subrange(0, i as int),
        decreases 4 - i,
    {
        r.push(entry(i));
        i = i + 1;
        assert(r@ =~= provider_table().subrange(0, i as int));
    }
    assert(provider_table().subrange(0, 4) =~= provider_table());
    r
}

/// The first entry of the registry, from index `from` on, whose kind is
/// `kind`.
pub open spec fn find_spec(kind: Seq<char>, from: int) -> Option<ProviderSpec>
    decreases 4 - from,
{
    if from < 0 || from >= 4 {
        None
    } else if provider_entry(from).kind@ == kind {
        Some(provider_entry(from))
    } else {
        find_spec(kind, from + 1)
    }
}

/// The registry entry for `kind`, if there is one.
pub open spec fn provider_spec_of(kind: Seq<char>) -> Option<ProviderSpec> {
    find_spec(kind, 0)
}

/// The label shown for `kind`.
pub open spec fn label_of(kind: Seq<char>) -> &'static str {
    match provider_spec_of(kind) {
        Some(s) => s.label,
        None => "Unknown",
    }
}

/// The registry entry for a provider kind.
pub fn provider_spec(kind: &str) -> (r: Option<ProviderSpec>)
    ensures
        r == provider_spec_of(kind@),
{
    let mut i: usize = 0;
    while i < 4
        invariant
            i <= 4,
            find_spec(kind@, 0) == find_spec(kind@, i as int),
        decreases 4 - i,
    {
        let s = entry(i);
        if str_eq(s.kind, kind) {
            return Some(s);
        }
        i = i + 1;
    }
    None
}

/// Human-readable label for UI listings and logs.
pub fn label(kind: &str) -> (r: &'static str)
    ensures
        r == label_of(kind@),
{
    match provider_spec(kind) {
        Some(s) => s.label,
        None => "Unknown",
    }
}

/// The endpoint each provider kind talks to by default.
pub open spec fn default_base_url_of(kind: Seq<char>) -> &'static str {
    if kind == kinds::TWILIO@ {
        "https://api.twilio.com"
    } else if kind == kinds::GATEWAYAPI@ {
        "https://gatewayapi.com"
    } else if kind == kinds::SEVENIO@ {
        "https://gateway.seven.io"
    } else {
        ""
    }
}

/// The endpoint a provider talks to when the operator has not overridden it.
pub fn default_base_url(kind: &str) -> (r: &'static str)
    ensures
        r == default_base_url_of(kind@),
{
    if str_eq(kind, kinds::TWILIO) {
        "https://api.twilio.com"
    } else if str_eq(kind, kinds::GATEWAYAPI) {
        "https://gatewayapi.com"
    } else if str_eq(kind, kinds::SEVENIO) {
        "https://gateway.seven.io"
    } else {
        ""
    }
}

/// The effective endpoint for a configuration: the configured URL without
/// surrounding whitespace and trailing slashes, or the provider's default.
pub open spec fn base_url_of(config: SmsConfig) -> Seq<char> {
    let configured = trim_end_char(trim(config.base_url@), '/');
    if configured.len() == 0 {
        default_base_url_of(config.provider@)@
    } else {
        configured
    }
}

/// Resolve the effective endpoint for a config, trimming a trailing slash so
/// adapters can concatenate paths without doubling it.
pub fn base_url(config: &SmsConfig) -> (r: String)
    ensures
        r@ == base_url_of(*config),
{
    let configured = trim_end_char_str(trim_str(config.base_url.as_str()), '/');
    if configured.unicode_len() == 0 {
        String::from_str(default_base_url(config.provider.as_str()))
    } else {
        String::from_str(configured)
    }
}

/// The view of a unit-or-message result.
pub open spec fn unit_result_view(r: Result<(), String>) -> Result<(), Seq<char>> {
    match r {
        Ok(()) => Ok(()),
        Err(m) => Err(m@),
    }
}

/// `"{label} requires {what}"`.
pub open spec fn requires_msg(label: &'static str, what: Seq<char>) -> Seq<char> {
    label@ + " requires "@ + what
}

/// Whether an endpoint is acceptable: empty, or an http(s) URL.
pub open spec fn is_http_endpoint(url: Seq<char>) -> bool {
    url.len() == 0 || starts_with(url, "http://"@) || starts_with(url, "https://"@)
}

/// The outcome of [`validate_config`]: the first rule the configuration
/// breaks, in the order the rules are checked, or `Ok`.
pub open spec fn validate_spec(config: SmsConfig) -> Result<(), Seq<char>> {
    match provider_spec_of(trim(config.provider@)) {
        None => Err("unknown SMS provider '"@ + config.provider@ + "'"@),
        Some(spec) => if spec.api_key_label is Some && trim(config.api_key@).len() == 0 {
            Err(requires_msg(spec.label, spec.api_key_label->0@))
        } else if config.provider@ != kinds::WEBHOOK@ && trim(config.api_secret@).len() == 0 {
            Err(requires_msg(spec.label, spec.api_secret_label@))
        } else if spec.sender_required && trim(config.sender@).len() == 0 {
            Err(requires_msg(spec.label, spec.sender_label@))
        } else if spec.base_url_required && trim(config.base_url@).len() == 0 {
            Err(
                requires_msg(
                    spec.label,
                    match spec.base_url_label {
                        Some(l) => l@,
                        None => "a URL"@,
                    },
                ),
            )
        } else if !is_http_endpoint(base_url_of(config)) {
            Err("the SMS endpoint must be an http(s) URL"@)
        } else if !valid_country_code(config.default_country_code@) {
            Err("'"@ + config.default_country_code@ + "' is not a known country calling code"@)
        } else {
            Ok(())
        },
    }
}

/// `"{label} requires {what}"` as a fresh string.
fn requires_message(label: &'static str, what: &str) -> (r: String)
    ensures
        r@ == requires_msg(label, what@),
{
    concat3(label, " requires ", what)
}

/// Reject a configuration that cannot possibly send, before it is stored or
/// used. Shared by the admin form, the `CALRS_SMS_*` block, and the read path.
pub fn validate_config(config: &SmsConfig) -> (r: Result<(), String>)
    ensures
        unit_result_view(r) == validate_spec(*config),
{
    let spec = match provider_spec(trim_str(config.provider.as_str())) {
        Some(s) => s,
        None => {
            return Err(concat3("unknown SMS provider '", config.provider.as_str(), "'"));
        },
    };
    if spec.api_key_label.is_some() && trim_str(config.api_key.as_str()).unicode_len() == 0 {
        let what = match spec.api_key_label {
            Some(l) => l,
            None => "an account identifier",
        };
        return Err(requires_message(spec.label, what));
    }
    // The webhook receiver may legitimately be unauthenticated (a bridge on
    // localhost); every real gateway needs its credential.
    if !str_eq(config.provider.as_str(), kinds::WEBHOOK) && trim_str(
        config.api_secret.as_str(),
    ).unicode_len() == 0 {
        return Err(requires_message(spec.label, spec.api_secret_label));
    }
    if spec.sender_required && trim_str(config.sender.as_str()).unicode_len() == 0 {
        return Err(requires_message(spec.label, spec.sender_label));
    }
    if spec.base_url_required && trim_str(config.base_url.as_str()).unicode_len() == 0 {
        let what = match spec.base_url_label {
            Some(l) => l,
            None => "a URL",
        };
        return Err(requires_message(spec.label, what));
    }
    let url = base_url(config);
    if !(url.as_str().unicode_len() == 0 || str_starts_with(url.as_str(), "http://")
        || str_starts_with(url.as_str(), "https://")) {
        return Err(String::from_str("the SMS endpoint must be an http(s) URL"));
    }
    if !is_valid_country_code(config.default_country_code.as_str()) {
        return Err(
            concat3(
                "'",
                config.default_country_code.as_str(),
                "' is not a known country calling code",
            ),
        );
    }
    Ok(())
}

/// The adapter for one configured gateway.
pub enum Provider {
    Twilio(TwilioProvider),
    GatewayApi(GatewayApiProvider),
    SevenIo(SevenIoProvider),
    Webhook(WebhookProvider),
}

/// The kind an adapter serves.
pub open spec fn provider_kind(p: Provider) -> &'static str {
    match p {
        Provider::Twilio(_) => kinds::TWILIO,
        Provider::GatewayApi(_) => kinds::GATEWAYAPI,
        Provider::SevenIo(_) => kinds::SEVENIO,
        Provider::Webhook(_) => kinds::WEBHOOK,
    }
}

impl Provider {
    /// The `sms_config.provider` value this adapter serves.
    pub fn kind(&self) -> (r: &'static str)
        ensures
            r == provider_kind(*self),
    {
        match self {
            Provider::Twilio(_) => kinds::TWILIO,
            Provider::GatewayApi(_) => kinds::GATEWAYAPI,
            Provider::SevenIo(_) => kinds::SEVENIO,
            Provider::Webhook(_) => kinds::WEBHOOK,
        }
    }
}

/// The four provider kinds are pairwise different strings.
pub proof fn lemma_kinds_distinct()
    ensures
        kinds::TWILIO@ != kinds::GATEWAYAPI@,
        kinds::TWILIO@ != kinds::SEVENIO@,
        kinds::TWILIO@ != kinds::WEBHOOK@,
        kinds::GATEWAYAPI@ != kinds::SEVENIO@,
        kinds::GATEWAYAPI@ != kinds::WEBHOOK@,
        kinds::SEVENIO@ != kinds::WEBHOOK@,
{
    reveal_strlit("twilio");
    reveal_strlit("gatewayapi");
    reveal_strlit("sevenio");
    reveal_strlit("webhook");
    assert(kinds::TWILIO@.len() == 6);
    assert(kinds::GATEWAYAPI@.len() == 10);
    assert(kinds::SEVENIO@.len() == 7);
    assert(kinds::WEBHOOK@.len() == 7);
    assert(kinds::SEVENIO@[0] != kinds::WEBHOOK@[0]);
}

/// What [`build_provider`] promises of its result `r` for `config`.
pub open spec fn build_provider_post(config: SmsConfig, twilio_trial: bool, r: Result<Provider, SmsError>) -> bool {
    let kind = trim(config.provider@);
    &&& (kind == kinds::TWILIO@ <==> (r matches Ok(Provider::Twilio(p)) && p.built_from(config, twilio_trial)))
    &&& (kind == kinds::GATEWAYAPI@ <==> (r matches Ok(Provider::GatewayApi(p)) && p.built_from(config)))
    &&& (kind == kinds::SEVENIO@ <==> (r matches Ok(Provider::SevenIo(p)) && p.built_from(config)))
    &&& (kind == kinds::WEBHOOK@ <==> (r matches Ok(Provider::Webhook(p)) && p.built_from(config)))
    &&& (r is Err <==> provider_spec_of(kind) is None)
    &&& (r is Err ==> (r matches Err(SmsError::Other(m)) && m@ == "unknown SMS provider '"@ + kind + "'"@))
}

/// Build the adapter for a configuration. `twilio_trial` is the process-wide
/// trial switch, which only the Twilio adapter reads.
pub fn build_provider(config: &SmsConfig, twilio_trial: bool) -> (r: Result<Provider, SmsError>)
    ensures
        build_provider_post(*config, twilio_trial, r),
{
    proof {
        lemma_kinds_distinct();
        lemma_known_kinds(trim(config.provider@));
    }
    let kind = trim_str(config.provider.as_str());
    if str_eq(kind, kinds::TWILIO) {
        Ok(Provider::Twilio(TwilioProvider::new(config, twilio_trial)))
    } else if str_eq(kind, kinds::GATEWAYAPI) {
        Ok(Provider::GatewayApi(GatewayApiProvider::new(config)))
    } else if str_eq(kind, kinds::SEVENIO) {
        Ok(Provider::SevenIo(SevenIoProvider::new(config)))
    } else if str_eq(kind, kinds::WEBHOOK) {
        Ok(Provider::Webhook(WebhookProvider::new(config)))
    } else {
        Err(SmsError::Other(concat3("unknown SMS provider '", kind, "'")))
    }
}

/// Every registry entry is found again by its own kind, and labelled with
/// its own label.
pub proof fn law_registry_lookup_finds_each_entry(i: int)
    requires
        0 <= i < 4,
    ensures
        provider_spec_of(provider_entry(i).kind@) == Some(provider_entry(i)),
        label_of(provider_entry(i).kind@) == provider_entry(i).label,
{
    lemma_kinds_distinct();
    reveal_with_fuel(find_spec, 5);
}

/// The registry knows exactly the four adapter kinds.
pub proof fn lemma_known_kinds(kind: Seq<char>)
    ensures
        provider_spec_of(kind) is Some <==> (kind == kinds::TWILIO@ || kind == kinds::GATEWAYAPI@
            || kind == kinds::SEVENIO@ || kind == kinds::WEBHOOK@),
{
    reveal_with_fuel(find_spec, 5);
}

/// Whitespace is not part of any provider kind.
pub proof fn lemma_kinds_are_trimmed()
    ensures
        trim(kinds::TWILIO@) == kinds::TWILIO@,
        trim(kinds::GATEWAYAPI@) == kinds::GATEWAYAPI@,
        trim(kinds::SEVENIO@) == kinds::SEVENIO@,
        trim(kinds::WEBHOOK@) == kinds::WEBHOOK@,
{
    reveal_strlit("twilio");
    reveal_strlit("gatewayapi");
    reveal_strlit("sevenio");
    reveal_strlit("webhook");
    assert(trim_start(kinds::TWILIO@) == kinds::TWILIO@);
    assert(trim_start(kinds::GATEWAYAPI@) == kinds::GATEWAYAPI@);
    assert(trim_start(kinds::SEVENIO@) == kinds::SEVENIO@);
    assert(trim_start(kinds::WEBHOOK@) == kinds::WEBHOOK@);
}

/// A configuration naming a registry kind builds the adapter of that kind,
/// whose reported kind is the registry's.
pub proof fn law_every_registered_kind_builds(config: SmsConfig, trial: bool, i: int, r: Result<Provider, SmsError>)
    requires
        0 <= i < 4,
        config.provider@ == provider_entry(i).kind@,
        build_provider_post(config, trial, r),
    ensures
        r matches Ok(p) && provider_kind(p) == provider_entry(i).kind,
{
    lemma_kinds_distinct();
    lemma_kinds_are_trimmed();
}

/// A configuration that validates always builds an adapter, names a known
/// gateway, has an http(s) or default endpoint and a listed country code, and
/// carries a credential unless it is the webhook.
pub proof fn law_valid_config_builds(config: SmsConfig, trial: bool, r: Result<Provider, SmsError>)
    requires
        validate_spec(config) is Ok,
        build_provider_post(config, trial, r),
    ensures
        r is Ok,
        provider_spec_of(trim(config.provider@)) is Some,
        is_http_endpoint(base_url_of(config)),
        valid_country_code(config.default_country_code@),
        config.provider@ != kinds::WEBHOOK@ ==> trim(config.api_secret@).len() > 0,
{
    lemma_kinds_distinct();
    lemma_known_kinds(trim(config.provider@));
}

/// Stripping every trailing `c` leaves a sequence that does not end in `c`.
pub proof fn lemma_trim_end_char_last(s: Seq<char>, c: char)
    ensures
        trim_end_char(s, c).len() > 0 ==> trim_end_char(s, c).last() != c,
    decreases s.len(),
{
    if s.len() > 0 && s.last() == c {
        lemma_trim_end_char_last(s.drop_last(), c);
    }
}

/// The effective endpoint never ends in a slash, so adapters can append
/// `/path` without doubling it.
pub proof fn law_base_url_has_no_trailing_slash(config: SmsConfig)
    ensures
        base_url_of(config).len() > 0 ==> base_url_of(config).last() != '/',
{
    lemma_trim_end_char_last(trim(config.base_url@), '/');
    reveal_strlit("https://api.twilio.com");
    reveal_strlit("https://gatewayapi.com");
    reveal_strlit("https://gateway.seven.io");
    reveal_strlit("");
}

/// A configuration that validates names a registered gateway and holds every
/// field that gateway needs: the account identifier when it has one, the
/// secret unless it is the webhook, the sender when it is required, the URL
/// when it is required, an http(s) endpoint and a listed country code.
pub proof fn law_validated_config_is_complete(config: SmsConfig)
    requires
        validate_spec(config) is Ok,
    ensures
        provider_spec_of(trim(config.provider@)) is Some,
        provider_spec_of(trim(config.provider@)) matches Some(s) ==> {
            &&& (s.api_key_label is Some ==> trim(config.api_key@).len() > 0)
            &&& (s.sender_required ==> trim(config.sender@).len() > 0)
            &&& (s.base_url_required ==> trim(config.base_url@).len() > 0)
        },
        config.provider@ != kinds::WEBHOOK@ ==> trim(config.api_secret@).len() > 0,
        is_http_endpoint(base_url_of(config)),
        valid_country_code(config.default_country_code@),
{
}

/// What each gateway asks for: only Twilio has an account identifier, every
/// gateway but the webhook needs a sender, and only the webhook needs a URL.
pub proof fn law_gateway_requirements(kind: Seq<char>)
    requires
        provider_spec_of(kind) is Some,
    ensures
        provider_spec_of(kind)->0.api_key_label is Some <==> kind == "twilio"@,
        provider_spec_of(kind)->0.sender_required <==> kind != "webhook"@,
        provider_spec_of(kind)->0.base_url_required <==> kind == "webhook"@,
{
    lemma_kinds_distinct();
    lemma_known_kinds(kind);
    reveal_with_fuel(find_spec, 5);
}

/// Whatever its gateway asks for, a Twilio, GatewayAPI or seven.io
/// configuration with a blank sender never validates.
pub proof fn law_a_blank_sender_is_refused(config: SmsConfig)
    requires
        trim(config.provider@) != "webhook"@,
        trim(config.sender@).len() == 0,
    ensures
        validate_spec(config) is Err,
{
    if validate_spec(config) is Ok {
        law_validated_config_is_complete(config);
        law_gateway_requirements(trim(config.provider@));
    }
}

} // verus!
