//! Generic webhook adapter: bring your own gateway.
//!
//! calrs POSTs `{"to", "text", "sender"}` to the configured URL and treats any
//! 2xx as accepted. If the receiver answers with `{"id": "..."}` that id is
//! kept for the logs. When an HMAC secret is configured the raw body is signed
//! with HMAC-SHA256 and sent as `X-Calrs-Signature: sha256=<hex>`, the same
//! scheme as the meeting webhook, so the receiver can prove the call came from
//! calrs.
//!
//! This exists so a gateway calrs has no adapter for (an in-house SMPP bridge,
//! Kannel, a national operator's API) is a small script away rather than a
//! feature request.
//!
//! ## SSRF posture
//!
//! Same reasoning as the meeting webhook: the URL is admin-configured only and
//! is deliberately not run through the private-host guard, because pointing it
//! at a bridge on localhost is the main use case.
use hmac::Mac;
use vstd::prelude::*;

use super::factory::{base_url, base_url_of};
use super::sevenio::http_error_kind;
use super::{
    SendReceipt, SmsConfig, SmsError, check_unsupported, check_unsupported_text, error_kind, error_message, is_success,
    is_success_spec, opt_string_view,
};
use crate::text::{concat2, concat3, first_chars, first_chars_str, trim, trim_str};

verus! {

/// The JSON body posted to the receiver: `{"to", "text", "sender"}`.
pub struct WebhookPayload {
    pub to: String,
    pub text: String,
    pub sender: String,
}

/// The field of a receiver's reply that is kept.
pub struct WebhookReply {
    pub id: Option<String>,
}

/// The reason phrase `http` gives a status code: its canonical reason, or
/// `<unknown status code>` when it has none.
pub uninterp spec fn status_reason(code: u16) -> Seq<char>;

/// The decimal digits of a three-digit status code.
pub open spec fn status_digits(code: u16) -> Seq<char> {
    seq![
        ((code / 100) + 48) as char,
        (((code / 10) % 10) + 48) as char,
        ((code % 10) + 48) as char,
    ]
}

/// How `http`'s `StatusCode` displays: `"{code} {reason}"`
/// (`StatusCode::from_u16` followed by its `Display` impl). Both are defined
/// for codes 100 to 999 only. The reason phrase is named, not restated.
#[verifier::external_body]
fn status_display(code: u16) -> (r: String)
    requires
        100 <= code <= 999,
    ensures
        r@ == status_digits(code) + " "@ + status_reason(code),
{
    match reqwest::StatusCode::from_u16(code) {
        Ok(s) => s.to_string(),
        Err(_) => String::new(),
    }
}

/// The message of a failed delivery.
pub open spec fn failure_text(status: u16, text: Seq<char>) -> Seq<char> {
    "webhook returned "@ + status_digits(status) + " "@ + status_reason(status) + ": "@
        + first_chars(trim(text), 200)
}

/// The normalised error for a non-2xx reply of the receiver.
pub fn delivery_error(status: u16, text: &str) -> (r: SmsError)
    requires
        100 <= status <= 999,
    ensures
        error_kind(r) == http_error_kind(status),
        error_message(r) == failure_text(status, text@),
{
    let mut message = concat2("webhook returned ", status_display(status).as_str());
    message.append(": ");
    message.append(first_chars_str(trim_str(text), 200));
    if status == 401 || status == 403 {
        SmsError::Auth(message)
    } else if status == 429 {
        SmsError::RateLimited(message)
    } else if 500 <= status && status <= 599 {
        SmsError::Transport(message)
    } else {
        SmsError::Other(message)
    }
}

/// The signature header value for the hex HMAC-SHA256 of the body.
pub fn signature_header(hex_digest: &str) -> (r: String)
    ensures
        r@ == "sha256="@ + hex_digest@,
{
    concat2("sha256=", hex_digest)
}

/// The lowercase hex HMAC-SHA256 of `message` under `key`.
pub uninterp spec fn hmac_sha256_hex_result(key: Seq<u8>, message: Seq<u8>) -> Seq<char>;

/// `hmac::Hmac<sha2::Sha256>` keyed with `key` (`new_from_slice`, which
/// accepts keys of any length), fed `message`, finalised, and written out with
/// `hex::encode`. The digest itself is named, not restated; what is stated is
/// its shape: 32 bytes, so 64 hex digits.
#[verifier::external_body]
fn hmac_sha256_hex(key: &[u8], message: &[u8]) -> (r: String)
    ensures
        r@ == hmac_sha256_hex_result(key@, message@),
        r@.len() == 64,
{
    let mut mac = match hmac::Hmac::<sha2::Sha256>::new_from_slice(key) {
        Ok(m) => m,
        Err(_) => return String::new(),
    };
    mac.update(message);
    hex::encode(mac.finalize().into_bytes())
}

pub struct WebhookProvider {
    pub url: String,
    pub sender: String,
    pub secret: String,
}

impl WebhookProvider {
    /// Whether this adapter is the one built from `config`.
    pub open spec fn built_from(self, config: SmsConfig) -> bool {
        &&& self.url@ == trim(config.base_url@)
        &&& self.sender@ == trim(config.sender@)
        &&& self.secret@ == config.api_secret@
    }

    pub fn new(config: &SmsConfig) -> (r: Self)
        ensures
            r.built_from(*config),
    {
        WebhookProvider {
            url: String::from_str(trim_str(config.base_url.as_str())),
            sender: String::from_str(trim_str(config.sender.as_str())),
            secret: config.api_secret.clone(),
        }
    }

    /// The body to post for a message to `to`.
    pub fn payload(&self, to: &str, text: &str) -> (r: WebhookPayload)
        ensures
            r.to@ == to@,
            r.text@ == text@,
            r.sender@ == self.sender@,
    {
        WebhookPayload {
            to: String::from_str(to),
            text: String::from_str(text),
            sender: String::from_str(self.sender.as_str()),
        }
    }

    /// The `X-Calrs-Signature` header for the serialised body `body`:
    /// `sha256=` and the hex HMAC-SHA256 of the body keyed with the secret's
    /// UTF-8 bytes. `None` when no secret is configured and the body goes
    /// unsigned.
    pub fn signature_for(&self, body: &[u8]) -> (r: Option<String>)
        ensures
            r is None <==> self.secret@.len() == 0,
            r matches Some(h) ==> h@ == "sha256="@ + hmac_sha256_hex_result(
                vstd::utf8::encode_utf8(self.secret@),
                body@,
            ),
    {
        if !self.signs() {
            return None;
        }
        let digest = hmac_sha256_hex(self.secret.as_str().as_bytes(), body);
        Some(signature_header(digest.as_str()))
    }

    /// Whether the body is signed: exactly when a secret is configured.
    pub fn signs(&self) -> (r: bool)
        ensures
            r == (self.secret@.len() > 0),
    {
        self.secret.as_str().unicode_len() > 0
    }

    /// The outcome of a delivery from the reply's status and text, given the
    /// text decoded as a reply (`None` when it is not such JSON): any 2xx is
    /// accepted, keeping the receiver's id when it sent one.
    pub fn interpret_send(&self, status: u16, text: &str, reply: Option<WebhookReply>) -> (r: Result<
        SendReceipt,
        SmsError,
    >)
        requires
            100 <= status <= 999,
        ensures
            is_success_spec(status) <==> r is Ok,
            r matches Err(e) ==> error_kind(e) == http_error_kind(status) && error_message(e)
                == failure_text(status, text@),
            r matches Ok(rc) ==> rc.segments is None && rc.currency is None && opt_string_view(
                rc.message_id,
            ) == match reply {
                Some(p) => opt_string_view(p.id),
                None => None,
            },
    {
        if !is_success(status) {
            return Err(delivery_error(status, text));
        }
        let message_id = match reply {
            Some(p) => p.id,
            None => None,
        };
        Ok(SendReceipt { message_id, segments: None, currency: None })
    }

    /// The webhook has no credential check endpoint.
    pub fn check(&self) -> (r: Result<(), SmsError>)
        ensures
            r matches Err(e) && error_kind(e) == "other" && error_message(e) == check_unsupported_text(),
    {
        Err(check_unsupported())
    }
}

} // verus!
