//! SMS notifications, provider-agnostic.
//!
//! Each gateway's protocol lives in its own module as plain request and
//! response rules; [`factory`] dispatches on the configured kind, and
//! everything above the gateways (opt-in checks, phone normalisation,
//! localised message bodies) is written once and never changes when a gateway
//! is added.
//!
//! Configuration follows the SMTP pattern: a system-wide singleton row in
//! `sms_config`, editable from the admin panel, with the secret encrypted at
//! rest, and a `CALRS_SMS_*` environment block that overrides the database
//! wholesale. Reading the environment, the database and the network is the
//! caller's part; the decisions taken on what was read are here.
//!
//! The whole feature is opt-in twice over: with no `sms_config` row *and* no
//! event type setting `sms_notifications_enabled`, nothing here ever runs.
use vstd::prelude::*;

use crate::email::{BookingDetails, CancellationDetails};
use crate::text::{concat2, concat3, trim, trim_str};

pub mod factory;
pub mod gatewayapi;
pub mod message;
pub mod phone;
pub mod sevenio;
pub mod twilio;
pub mod webhook;

verus! {

/// Instance-wide SMS gateway configuration.
///
/// The field set is deliberately the union of what the supported gateways
/// need, kept small enough that a new provider is a file plus a registry entry:
///
/// * `api_key` is a non-secret account identifier (Twilio's Account SID).
///   Gateways that authenticate with a bare token leave it empty.
/// * `api_secret` is the actual credential, decrypted.
/// * `sender` is a from-number or an alphanumeric sender ID.
/// * `base_url` picks a region (`gatewayapi.eu`) or a self-hosted endpoint,
///   and is the target URL for the `webhook` provider.
/// * `daily_cap` bounds the messages sent per day; `0` means no bound. It is
///   carried for the caller and not consulted by this crate.
#[derive(Clone, Default)]
pub struct SmsConfig {
    pub provider: String,
    pub api_key: String,
    pub api_secret: String,
    pub sender: String,
    pub base_url: String,
    pub default_country_code: String,
    pub daily_cap: u32,
}

/// What `format!("{:?}", s)` prints for a string with the characters `s`:
/// the string quoted, with Rust's debug escapes applied.
pub uninterp spec fn debug_quoted(s: Seq<char>) -> Seq<char>;

/// `<str as Debug>::fmt`: the quoted and escaped form of `s`.
#[verifier::external_body]
fn debug_str(s: &str) -> (r: String)
    ensures
        r@ == debug_quoted(s@),
{
    format!("{:?}", s)
}

/// The debug rendering of a configuration with the given fields; the secret
/// is not an input.
pub open spec fn redacted_debug_spec(
    provider: Seq<char>,
    api_key: Seq<char>,
    sender: Seq<char>,
    base_url: Seq<char>,
    default_country_code: Seq<char>,
) -> Seq<char> {
    "SmsConfig { provider: "@ + debug_quoted(provider) + ", api_key: "@ + debug_quoted(api_key)
        + ", api_secret: \"<redacted>\", sender: "@ + debug_quoted(sender) + ", base_url: "@
        + debug_quoted(base_url) + ", default_country_code: "@ + debug_quoted(
        default_country_code,
    ) + " }"@
}

impl SmsConfig {
    /// The `Debug` rendering of the configuration, with the secret replaced
    /// by `"<redacted>"` so that it never reaches a log line.
    pub fn redacted_debug(&self) -> (r: String)
        ensures
            r@ == redacted_debug_spec(
                self.provider@,
                self.api_key@,
                self.sender@,
                self.base_url@,
                self.default_country_code@,
            ),
    {
        let mut r = String::from_str("SmsConfig { provider: ");
        r.append(debug_str(self.provider.as_str()).as_str());
        r.append(", api_key: ");
        r.append(debug_str(self.api_key.as_str()).as_str());
        r.append(", api_secret: \"<redacted>\", sender: ");
        r.append(debug_str(self.sender.as_str()).as_str());
        r.append(", base_url: ");
        r.append(debug_str(self.base_url.as_str()).as_str());
        r.append(", default_country_code: ");
        r.append(debug_str(self.default_country_code.as_str()).as_str());
        r.append(" }");
        r
    }
}

/// Two configurations that differ only in their secret render identically:
/// the debug form never depends on the credential.
pub proof fn law_debug_hides_the_secret(a: SmsConfig, b: SmsConfig)
    requires
        a.provider@ == b.provider@,
        a.api_key@ == b.api_key@,
        a.sender@ == b.sender@,
        a.base_url@ == b.base_url@,
        a.default_country_code@ == b.default_country_code@,
    ensures
        redacted_debug_spec(
            a.provider@,
            a.api_key@,
            a.sender@,
            a.base_url@,
            a.default_country_code@,
        ) == redacted_debug_spec(
            b.provider@,
            b.api_key@,
            b.sender@,
            b.base_url@,
            b.default_country_code@,
        ),
{
}

/// Non-secret view of the configuration for the admin panel.
pub struct SmsStatus {
    pub provider: String,
    pub provider_label: &'static str,
    pub api_key: String,
    pub sender: String,
    pub base_url: String,
    pub default_country_code: String,
    pub enabled: bool,
    pub from_env: bool,
}

/// What a gateway reports back about an accepted message. Every field is
/// optional because coverage varies: Twilio returns a SID and a segment
/// count, seven.io an id and a part count, GatewayAPI an id, a webhook
/// receiver may return nothing at all. The billed amount is a decimal the
/// caller attaches from the raw reply.
#[derive(Debug, Default)]
pub struct SendReceipt {
    pub message_id: Option<String>,
    pub segments: Option<u32>,
    pub currency: Option<String>,
}

/// Gateway failures, normalised across providers so the admin panel and the
/// logs say the same thing whichever gateway is configured.
///
/// This normalisation is the main reason response parsing belongs to the
/// provider: the same failure is an HTTP 401 on Twilio, an HTTP 401 with a
/// `{"code": "0x..."}` body on GatewayAPI, and an HTTP **200** carrying
/// `{"success": "900"}` on seven.io.
#[derive(Debug)]
pub enum SmsError {
    /// Credentials rejected.
    Auth(String),
    /// The recipient number was refused by the gateway.
    InvalidRecipient(String),
    /// The sender number or alphanumeric sender ID was refused.
    InvalidSender(String),
    /// Out of credit / insufficient funds.
    InsufficientCredit(String),
    /// Throttled; retrying later may work.
    RateLimited(String),
    /// Network-level failure (DNS, TLS, timeout).
    Transport(String),
    /// Anything else, carrying the gateway's own message.
    Other(String),
}

/// The text carried by an error.
pub open spec fn error_message(e: SmsError) -> Seq<char> {
    match e {
        SmsError::Auth(m) => m@,
        SmsError::InvalidRecipient(m) => m@,
        SmsError::InvalidSender(m) => m@,
        SmsError::InsufficientCredit(m) => m@,
        SmsError::RateLimited(m) => m@,
        SmsError::Transport(m) => m@,
        SmsError::Other(m) => m@,
    }
}

/// The human-readable sentence that introduces each kind of error.
pub open spec fn error_prefix(e: SmsError) -> Seq<char> {
    match e {
        SmsError::Auth(_) => "authentication rejected by the SMS gateway: "@,
        SmsError::InvalidRecipient(_) => "recipient number refused: "@,
        SmsError::InvalidSender(_) => "sender refused: "@,
        SmsError::InsufficientCredit(_) => "insufficient credit: "@,
        SmsError::RateLimited(_) => "rate limited by the SMS gateway: "@,
        SmsError::Transport(_) => "could not reach the SMS gateway: "@,
        SmsError::Other(_) => "SMS gateway error: "@,
    }
}

/// The short machine-readable label of each kind of error.
pub open spec fn error_kind(e: SmsError) -> &'static str {
    match e {
        SmsError::Auth(_) => "auth",
        SmsError::InvalidRecipient(_) => "invalid_recipient",
        SmsError::InvalidSender(_) => "invalid_sender",
        SmsError::InsufficientCredit(_) => "insufficient_credit",
        SmsError::RateLimited(_) => "rate_limited",
        SmsError::Transport(_) => "transport",
        SmsError::Other(_) => "other",
    }
}

impl SmsError {
    /// Short machine-readable label used in structured logs.
    pub fn kind(&self) -> (r: &'static str)
        ensures
            r == error_kind(*self),
    {
        match self {
            SmsError::Auth(_) => "auth",
            SmsError::InvalidRecipient(_) => "invalid_recipient",
            SmsError::InvalidSender(_) => "invalid_sender",
            SmsError::InsufficientCredit(_) => "insufficient_credit",
            SmsError::RateLimited(_) => "rate_limited",
            SmsError::Transport(_) => "transport",
            SmsError::Other(_) => "other",
        }
    }

    /// The message shown to operators: the error's sentence, then the
    /// gateway's own text.
    pub fn to_string(&self) -> (r: String)
        ensures
            r@ == error_prefix(*self) + error_message(*self),
    {
        match self {
            SmsError::Auth(m) => concat2("authentication rejected by the SMS gateway: ", m.as_str()),
            SmsError::InvalidRecipient(m) => concat2("recipient number refused: ", m.as_str()),
            SmsError::InvalidSender(m) => concat2("sender refused: ", m.as_str()),
            SmsError::InsufficientCredit(m) => concat2("insufficient credit: ", m.as_str()),
            SmsError::RateLimited(m) => concat2("rate limited by the SMS gateway: ", m.as_str()),
            SmsError::Transport(m) => concat2("could not reach the SMS gateway: ", m.as_str()),
            SmsError::Other(m) => concat2("SMS gateway error: ", m.as_str()),
        }
    }

    /// The message of the error, whatever its kind.
    pub fn message(&self) -> (r: &str)
        ensures
            r@ == error_message(*self),
    {
        match self {
            SmsError::Auth(m) => m.as_str(),
            SmsError::InvalidRecipient(m) => m.as_str(),
            SmsError::InvalidSender(m) => m.as_str(),
            SmsError::InsufficientCredit(m) => m.as_str(),
            SmsError::RateLimited(m) => m.as_str(),
            SmsError::Transport(m) => m.as_str(),
            SmsError::Other(m) => m.as_str(),
        }
    }
}

/// Whether an HTTP status is a success (2xx).
pub open spec fn is_success_spec(status: u16) -> bool {
    200 <= status <= 299
}

/// Whether an HTTP status is a success (2xx).
pub fn is_success(status: u16) -> (r: bool)
    ensures
        r == is_success_spec(status),
{
    200 <= status && status <= 299
}

/// What a gateway without a credential check answers.
pub open spec fn check_unsupported_text() -> Seq<char> {
    "this gateway has no credential check endpoint; send a test message instead"@
}

/// The answer of a gateway that offers no credential check: report it as
/// unsupported so the admin panel can tell the operator to send a test
/// message instead.
pub fn check_unsupported() -> (r: SmsError)
    ensures
        r matches SmsError::Other(m) && m@ == check_unsupported_text(),
{
    SmsError::Other(
        String::from_str(
            "this gateway has no credential check endpoint; send a test message instead",
        ),
    )
}

/// Booking lifecycle events that produce a guest SMS.
///
/// Deliberately not the full email matrix: SMS costs money per message and
/// interrupts people, so it carries only what a guest needs on their phone.
#[derive(Debug, Clone, Copy, PartialEq, Eq, Structural)]
pub enum SmsEvent {
    Confirmed,
    Cancelled,
    Rescheduled,
    Reminder,
}

/// The name of each event in logs.
pub open spec fn event_name(e: SmsEvent) -> &'static str {
    match e {
        SmsEvent::Confirmed => "confirmed",
        SmsEvent::Cancelled => "cancelled",
        SmsEvent::Rescheduled => "rescheduled",
        SmsEvent::Reminder => "reminder",
    }
}

impl SmsEvent {
    pub fn as_str(&self) -> (r: &'static str)
        ensures
            r == event_name(*self),
    {
        match self {
            SmsEvent::Confirmed => "confirmed",
            SmsEvent::Cancelled => "cancelled",
            SmsEvent::Rescheduled => "rescheduled",
            SmsEvent::Reminder => "reminder",
        }
    }
}

/// Everything a message body needs, borrowed from whatever the caller already
/// built for the matching email. Times are pre-formatted in the guest's
/// timezone by the email layer, so an SMS never disagrees with its email.
pub struct SmsContext<'a> {
    pub phone: &'a str,
    pub event_title: &'a str,
    pub date: &'a str,
    pub start_time: &'a str,
    pub timezone: &'a str,
    pub lang: Option<&'a str>,
}

/// The phone number worth messaging: `None` when SMS is off for the event
/// type or the guest left no number, otherwise the number trimmed.
pub open spec fn usable_phone_spec(phone: Option<Seq<char>>, sms_enabled: bool) -> Option<Seq<char>> {
    if !sms_enabled {
        None
    } else {
        match phone {
            Some(p) => if trim(p).len() == 0 {
                None
            } else {
                Some(trim(p))
            },
            None => None,
        }
    }
}

/// The view of an optional borrowed string.
pub open spec fn opt_str_view(o: Option<&str>) -> Option<Seq<char>> {
    match o {
        Some(s) => Some(s@),
        None => None,
    }
}

/// The view of an optional owned string.
pub open spec fn opt_string_view(o: Option<String>) -> Option<Seq<char>> {
    match o {
        Some(s) => Some(s@),
        None => None,
    }
}

/// Whether `c` carries exactly the details `title`, `date`, `time`, `tz`,
/// `lang`, and the phone `phone`.
pub open spec fn context_holds(
    c: SmsContext,
    phone: Seq<char>,
    title: Seq<char>,
    date: Seq<char>,
    time: Seq<char>,
    tz: Seq<char>,
    lang: Option<Seq<char>>,
) -> bool {
    &&& c.phone@ == phone
    &&& c.event_title@ == title
    &&& c.date@ == date
    &&& c.start_time@ == time
    &&& c.timezone@ == tz
    &&& opt_str_view(c.lang) == lang
}

/// The borrowed form of an optional owned string.
fn opt_as_str(o: &Option<String>) -> (r: Option<&str>)
    ensures
        opt_str_view(r) == opt_string_view(*o),
{
    match o {
        Some(s) => Some(s.as_str()),
        None => None,
    }
}

impl<'a> SmsContext<'a> {
    /// Build from the booking details already assembled for the guest email.
    /// Returns `None` when the event type has SMS off or the guest left no
    /// number, which keeps the guard at every call site to one `if let`.
    pub fn for_booking(details: &'a BookingDetails, phone: Option<&'a str>, sms_enabled: bool) -> (r: Option<Self>)
        ensures
            match usable_phone_spec(opt_str_view(phone), sms_enabled) {
                None => r is None,
                Some(p) => r matches Some(c) && context_holds(
                    c,
                    p,
                    details.event_title@,
                    details.date@,
                    details.start_time@,
                    details.guest_timezone@,
                    opt_string_view(details.guest_language),
                ),
            },
    {
        let phone = match Self::usable_phone(phone, sms_enabled) {
            Some(p) => p,
            None => {
                return None;
            },
        };
        Some(
            SmsContext {
                phone,
                event_title: details.event_title.as_str(),
                date: details.date.as_str(),
                start_time: details.start_time.as_str(),
                timezone: details.guest_timezone.as_str(),
                lang: opt_as_str(&details.guest_language),
            },
        )
    }

    /// Same, for the cancellation path.
    pub fn for_cancellation(
        details: &'a CancellationDetails,
        phone: Option<&'a str>,
        sms_enabled: bool,
    ) -> (r: Option<Self>)
        ensures
            match usable_phone_spec(opt_str_view(phone), sms_enabled) {
                None => r is None,
                Some(p) => r matches Some(c) && context_holds(
                    c,
                    p,
                    details.event_title@,
                    details.date@,
                    details.start_time@,
                    details.guest_timezone@,
                    opt_string_view(details.guest_language),
                ),
            },
    {
        let phone = match Self::usable_phone(phone, sms_enabled) {
            Some(p) => p,
            None => {
                return None;
            },
        };
        Some(
            SmsContext {
                phone,
                event_title: details.event_title.as_str(),
                date: details.date.as_str(),
                start_time: details.start_time.as_str(),
                timezone: details.guest_timezone.as_str(),
                lang: opt_as_str(&details.guest_language),
            },
        )
    }

    fn usable_phone(phone: Option<&'a str>, sms_enabled: bool) -> (r: Option<&'a str>)
        ensures
            opt_str_view(r) == usable_phone_spec(opt_str_view(phone), sms_enabled),
    {
        if !sms_enabled {
            return None;
        }
        match phone {
            Some(p) => {
                let t = trim_str(p);
                if t.unicode_len() == 0 {
                    None
                } else {
                    Some(t)
                }
            },
            None => None,
        }
    }
}

/// The `CALRS_SMS_*` environment block as read from the process
/// environment: each variable's value when it is set, and whether any of
/// them is set at all (even to an empty or non-Unicode value).
pub struct SmsEnv {
    pub any_set: bool,
    pub provider: Option<String>,
    pub api_key: Option<String>,
    pub api_secret: Option<String>,
    pub sender: Option<String>,
    pub base_url: Option<String>,
    pub default_country_code: Option<String>,
}

/// The value a variable contributes: trimmed, and only when non-empty.
pub open spec fn env_value(v: Option<String>) -> Option<Seq<char>> {
    match v {
        Some(s) => if trim(s@).len() > 0 {
            Some(trim(s@))
        } else {
            None
        },
        None => None,
    }
}

/// A variable's value, or the empty string.
pub open spec fn env_or_empty(v: Option<String>) -> Seq<char> {
    match env_value(v) {
        Some(s) => s,
        None => Seq::empty(),
    }
}

/// Whether `c` is the configuration the environment block `env` spells out.
pub open spec fn config_from_env_block(env: SmsEnv, c: SmsConfig) -> bool {
    &&& c.provider@ == env_or_empty(env.provider)
    &&& c.api_key@ == env_or_empty(env.api_key)
    &&& c.api_secret@ == env_or_empty(env.api_secret)
    &&& c.sender@ == env_or_empty(env.sender)
    &&& c.base_url@ == env_or_empty(env.base_url)
    &&& c.default_country_code@ == match env_value(env.default_country_code) {
        Some(s) => s,
        None => phone::DEFAULT_COUNTRY_CODE@,
    }
    &&& c.daily_cap == 0
}

/// A variable's value, trimmed, when non-empty.
fn optional_env(v: &Option<String>) -> (r: Option<String>)
    ensures
        opt_string_view(r) == env_value(*v),
{
    match v {
        Some(s) => {
            let t = trim_str(s.as_str());
            if t.unicode_len() > 0 {
                Some(String::from_str(t))
            } else {
                None
            }
        },
        None => None,
    }
}

/// A variable's value, or the empty string.
fn env_or_default(v: &Option<String>) -> (r: String)
    ensures
        r@ == env_or_empty(*v),
{
    match optional_env(v) {
        Some(s) => s,
        None => String::new(),
    }
}

/// The configuration the `CALRS_SMS_*` block gives. Same "full block wins"
/// semantics as the SMTP settings: `Ok(None)` when no variable is set,
/// `Ok(Some(..))` for a block that validates, and the validation error for an
/// incomplete one, which the caller logs and ignores so that a typo in a
/// deployment unit does not silently disable SMS.
pub fn config_from_env(env: &SmsEnv) -> (r: Result<Option<SmsConfig>, String>)
    ensures
        !env.any_set <==> r matches Ok(None),
        r matches Ok(Some(c)) ==> config_from_env_block(*env, c) && factory::validate_spec(c) is Ok,
        r matches Err(e) ==> exists|c: SmsConfig| config_from_env_block(*env, c) && factory::validate_spec(c) == Err::<(), Seq<char>>(e@),
{
    if !env.any_set {
        return Ok(None);
    }
    let config = SmsConfig {
        provider: env_or_default(&env.provider),
        api_key: env_or_default(&env.api_key),
        api_secret: env_or_default(&env.api_secret),
        sender: env_or_default(&env.sender),
        base_url: env_or_default(&env.base_url),
        default_country_code: match optional_env(&env.default_country_code) {
            Some(c) => c,
            None => String::from_str(phone::DEFAULT_COUNTRY_CODE),
        },
        daily_cap: 0,
    };
    match factory::validate_config(&config) {
        Ok(()) => Ok(Some(config)),
        Err(e) => Err(e),
    }
}

/// Whether the `CALRS_SMS_*` block governs the config (locks the admin form,
/// as the SMTP block does).
pub fn sms_env_active(env: &SmsEnv) -> (r: bool)
    ensures
        r == (env.any_set && exists|c: SmsConfig| config_from_env_block(*env, c) && factory::validate_spec(c) is Ok),
{
    match config_from_env(env) {
        Ok(Some(c)) => true,
        Ok(None) => false,
        Err(e) => {
            proof {
                let c = choose|c: SmsConfig| config_from_env_block(*env, c) && factory::validate_spec(c) == Err::<(), Seq<char>>(e@);
                assert forall|c2: SmsConfig| config_from_env_block(*env, c2) implies !(factory::validate_spec(c2) is Ok) by {
                    lemma_validate_depends_on_views(c, c2);
                }
            }
            false
        },
    }
}

/// The outcome of validation depends only on the views of the fields.
pub proof fn lemma_validate_depends_on_views(a: SmsConfig, b: SmsConfig)
    requires
        a.provider@ == b.provider@,
        a.api_key@ == b.api_key@,
        a.api_secret@ == b.api_secret@,
        a.sender@ == b.sender@,
        a.base_url@ == b.base_url@,
        a.default_country_code@ == b.default_country_code@,
    ensures
        factory::validate_spec(a) == factory::validate_spec(b),
{
    assert(factory::base_url_of(a) == factory::base_url_of(b));
}

/// A stored `sms_config` row, as read for sending.
pub struct StoredConfig {
    pub provider: String,
    pub api_key: Option<String>,
    pub api_secret_enc: Option<String>,
    pub sender: String,
    pub base_url: Option<String>,
    pub default_country_code: String,
}

/// The encrypted secret to decrypt, when the row holds a non-empty one; a
/// row without one has an empty secret.
pub fn secret_to_decrypt(row: &StoredConfig) -> (r: Option<&str>)
    ensures
        match row.api_secret_enc {
            Some(s) => if s@.len() > 0 {
                r matches Some(t) && t@ == s@
            } else {
                r is None
            },
            None => r is None,
        },
{
    match &row.api_secret_enc {
        Some(s) => if s.as_str().unicode_len() > 0 {
            Some(s.as_str())
        } else {
            None
        },
        None => None,
    }
}

/// An optional column, or the empty string.
pub open spec fn column_or_empty(v: Option<String>) -> Seq<char> {
    match v {
        Some(s) => s@,
        None => Seq::empty(),
    }
}

/// Whether `c` is the configuration held by `row` with the decrypted
/// secret `api_secret`.
pub open spec fn config_from_stored(row: StoredConfig, api_secret: Seq<char>, c: SmsConfig) -> bool {
    &&& c.provider@ == row.provider@
    &&& c.api_key@ == column_or_empty(row.api_key)
    &&& c.api_secret@ == api_secret
    &&& c.sender@ == row.sender@
    &&& c.base_url@ == column_or_empty(row.base_url)
    &&& c.default_country_code@ == row.default_country_code@
    &&& c.daily_cap == 0
}

fn column(v: Option<String>) -> (r: String)
    ensures
        r@ == column_or_empty(v),
{
    match v {
        Some(s) => s,
        None => String::new(),
    }
}

/// The configuration of a stored row, given its decrypted secret. A row
/// that no longer validates (e.g. saved before a provider gained a required
/// field) is treated as "not configured" rather than failing at send time
/// inside a booking request: the validation error is returned for the
/// caller to log.
pub fn config_from_row(row: StoredConfig, api_secret: String) -> (r: Result<SmsConfig, String>)
    ensures
        r matches Ok(c) ==> config_from_stored(row, api_secret@, c) && factory::validate_spec(c) is Ok,
        r matches Err(e) ==> exists|c: SmsConfig| config_from_stored(row, api_secret@, c) && factory::validate_spec(c) == Err::<(), Seq<char>>(e@),
{
    let ghost r0 = row;
    let ghost s0 = api_secret@;
    let config = SmsConfig {
        provider: row.provider,
        api_key: column(row.api_key),
        api_secret,
        sender: row.sender,
        base_url: column(row.base_url),
        default_country_code: row.default_country_code,
        daily_cap: 0,
    };
    assert(config_from_stored(r0, s0, config));
    match factory::validate_config(&config) {
        Ok(()) => Ok(config),
        Err(e) => Err(e),
    }
}

/// A stored `sms_config` row, as read for the admin panel.
pub struct StoredStatus {
    pub provider: String,
    pub api_key: Option<String>,
    pub sender: String,
    pub base_url: Option<String>,
    pub default_country_code: String,
    pub enabled: bool,
}

/// Whether `s` is the admin view of the environment configuration `c`.
pub open spec fn status_of_env(c: SmsConfig, s: SmsStatus) -> bool {
    &&& s.provider@ == c.provider@
    &&& s.provider_label == factory::label_of(c.provider@)
    &&& s.api_key@ == c.api_key@
    &&& s.sender@ == c.sender@
    &&& s.base_url@ == c.base_url@
    &&& s.default_country_code@ == c.default_country_code@
    &&& s.enabled
    &&& s.from_env
}

/// Whether `s` is the admin view of the stored row `row`.
pub open spec fn status_of_row(row: StoredStatus, s: SmsStatus) -> bool {
    &&& s.provider@ == row.provider@
    &&& s.provider_label == factory::label_of(row.provider@)
    &&& s.api_key@ == column_or_empty(row.api_key)
    &&& s.sender@ == row.sender@
    &&& s.base_url@ == column_or_empty(row.base_url)
    &&& s.default_country_code@ == row.default_country_code@
    &&& s.enabled == row.enabled
    &&& !s.from_env
}

/// The admin view of a configuration that comes from the environment.
pub fn status_from_env(config: SmsConfig) -> (r: SmsStatus)
    ensures
        status_of_env(config, r),
{
    let provider_label = factory::label(config.provider.as_str());
    SmsStatus {
        provider: config.provider,
        provider_label,
        api_key: config.api_key,
        sender: config.sender,
        base_url: config.base_url,
        default_country_code: config.default_country_code,
        enabled: true,
        from_env: true,
    }
}

/// The admin view of a stored row.
pub fn status_from_row(row: StoredStatus) -> (r: SmsStatus)
    ensures
        status_of_row(row, r),
{
    let provider_label = factory::label(row.provider.as_str());
    SmsStatus {
        provider: row.provider,
        provider_label,
        api_key: column(row.api_key),
        sender: row.sender,
        base_url: column(row.base_url),
        default_country_code: row.default_country_code,
        enabled: row.enabled,
        from_env: false,
    }
}

/// Whether the environment block settles the configuration, so that the
/// stored row need not be read: exactly when it gave a valid configuration.
pub fn env_wins(from_env: &Result<Option<SmsConfig>, String>) -> (r: bool)
    ensures
        r <==> from_env matches Ok(Some(_)),
{
    match from_env {
        Ok(Some(_)) => true,
        _ => false,
    }
}

/// The configuration to send with, from the outcome of the environment
/// block ([`config_from_env`]) and, when that gave none, of the enabled
/// stored row ([`config_from_row`], `None` when there is no such row). A
/// valid environment block overrides the database wholesale; an invalid one
/// is ignored; a stored row that no longer validates means SMS is not
/// configured.
pub fn pick_config(
    from_env: Result<Option<SmsConfig>, String>,
    from_row: Option<Result<SmsConfig, String>>,
) -> (r: Option<SmsConfig>)
    ensures
        from_env matches Ok(Some(c)) ==> r == Some(c),
        !(from_env matches Ok(Some(_))) ==> r == match from_row {
            Some(Ok(c)) => Some(c),
            _ => None::<SmsConfig>,
        },
{
    match from_env {
        Ok(Some(c)) => Some(c),
        _ => match from_row {
            Some(Ok(c)) => Some(c),
            _ => None,
        },
    }
}

/// The admin view: the environment configuration when the block is valid,
/// else the stored row (`None` when there is none), whether or not that row
/// is enabled.
pub fn pick_status(from_env: Option<SmsConfig>, row: Option<StoredStatus>) -> (r: Option<SmsStatus>)
    ensures
        from_env matches Some(c) ==> (r matches Some(s) && status_of_env(c, s)),
        from_env is None ==> match row {
            Some(w) => r matches Some(s) && status_of_row(w, s),
            None => r is None,
        },
{
    match from_env {
        Some(c) => Some(status_from_env(c)),
        None => match row {
            Some(w) => Some(status_from_row(w)),
            None => None,
        },
    }
}

/// The default country code used to normalise a guest's local number: the
/// stored one when it is a listed code, else [`phone::DEFAULT_COUNTRY_CODE`],
/// so the booking form can render before an admin has been through the
/// panel.
pub fn effective_country_code(stored: Option<String>) -> (r: String)
    ensures
        r@ == match stored {
            Some(c) => if phone::valid_country_code(c@) {
                c@
            } else {
                phone::DEFAULT_COUNTRY_CODE@
            },
            None => phone::DEFAULT_COUNTRY_CODE@,
        },
        phone::valid_country_code(r@),
{
    proof {
        law_default_country_code_is_listed();
    }
    match stored {
        Some(c) => if phone::is_valid_country_code(c.as_str()) {
            c
        } else {
            String::from_str(phone::DEFAULT_COUNTRY_CODE)
        },
        None => String::from_str(phone::DEFAULT_COUNTRY_CODE),
    }
}

/// The fallback country code is itself a listed one.
pub proof fn law_default_country_code_is_listed()
    ensures
        phone::valid_country_code(phone::DEFAULT_COUNTRY_CODE@),
{
    reveal_strlit("+33");
    let d = phone::DEFAULT_COUNTRY_CODE@;
    assert(crate::text::trim_start(d) == d);
    assert(crate::text::trim_end(d) == d);
    assert(phone::COUNTRY_CODES@[6].0@ == d);
}

/// The body to send for `event`, or `None` when the stored guest phone is
/// not E.164 and the SMS is skipped.
pub fn prepare_notification(event: SmsEvent, ctx: &SmsContext<'_>) -> (r: Option<String>)
    ensures
        !phone::is_e164_spec(ctx.phone@) <==> r is None,
        r matches Some(b) ==> b@ == message::compose_spec(
            event,
            ctx.event_title@,
            ctx.date@,
            ctx.start_time@,
            ctx.timezone@,
            opt_str_view(ctx.lang),
        ),
{
    if !phone::is_e164(ctx.phone) {
        return None;
    }
    Some(message::compose(event, ctx))
}

/// The same failure reads the same whichever gateway reported it: for one
/// HTTP status, a GatewayAPI error reply, a seven.io non-2xx reply, a webhook
/// failure, and a Twilio reply whose body carries no Twilio error, all carry
/// the same kind of error.
pub proof fn law_status_kinds_agree(
    status: u16,
    body: Seq<char>,
    gatewayapi_err: SmsError,
    sevenio_err: SmsError,
    webhook_err: SmsError,
    twilio_err: SmsError,
)
    requires
        error_kind(gatewayapi_err) == sevenio::http_error_kind(status),
        error_kind(sevenio_err) == sevenio::http_error_kind(status),
        error_kind(webhook_err) == sevenio::http_error_kind(status),
        twilio::parse_error_post(status, body, None, twilio_err),
    ensures
        error_kind(gatewayapi_err) == error_kind(sevenio_err),
        error_kind(sevenio_err) == error_kind(webhook_err),
        error_kind(webhook_err) == error_kind(twilio_err),
{
}

/// Each field of the configuration an environment block spells out is its
/// variable's trimmed value, or empty when the variable is unset or blank;
/// the default country code falls back to `+33` only when its variable is
/// unset or blank.
pub proof fn law_env_block_fields(env: SmsEnv, c: SmsConfig)
    requires
        config_from_env_block(env, c),
    ensures
        c.default_country_code@ == match env.default_country_code {
            Some(v) => if trim(v@).len() > 0 {
                trim(v@)
            } else {
                "+33"@
            },
            None => "+33"@,
        },
        env.provider matches Some(v) ==> c.provider@ == trim(v@),
        env.provider is None ==> c.provider@.len() == 0,
        env.api_key matches Some(v) ==> c.api_key@ == trim(v@),
        env.api_key is None ==> c.api_key@.len() == 0,
        env.api_secret matches Some(v) ==> c.api_secret@ == trim(v@),
        env.api_secret is None ==> c.api_secret@.len() == 0,
        env.sender matches Some(v) ==> c.sender@ == trim(v@),
        env.sender is None ==> c.sender@.len() == 0,
        env.base_url matches Some(v) ==> c.base_url@ == trim(v@),
        env.base_url is None ==> c.base_url@.len() == 0,
        c.daily_cap == 0,
{
    reveal_strlit("+33");
}

} // verus!
