//! GatewayAPI adapter.
//!
//! `POST {base}/rest/mtsms` with a JSON body, authenticated by
//! `Authorization: Token <api token>`. The base URL selects the region:
//! `https://gatewayapi.com` (default) or `https://gatewayapi.eu`.
//!
//! Recipients go on the wire as `msisdn` digits without the leading `+`, and
//! the sender may be up to 11 alphanumeric characters or 15 digits.
//! Reference: <https://gatewayapi.com/docs/apis/rest/>.
use vstd::prelude::*;

use super::factory::{base_url, base_url_of};
use super::phone::{without_plus, without_plus_spec};
use super::sevenio::http_error_kind;
use super::{
    SendReceipt, SmsConfig, SmsError, check_unsupported, check_unsupported_text, error_kind, error_message, is_success,
    is_success_spec, opt_string_view,
};
use crate::text::{concat2, first_chars, first_chars_str, trim, trim_str};

verus! {

/// The fields of a GatewayAPI error reply.
pub struct GatewayApiError {
    pub code: Option<String>,
    pub message: Option<String>,
}

/// The fields of an accepted-message reply the receipt is built from: the
/// message ids, each as its JSON text, and the billing currency.
pub struct GatewayApiReply {
    pub ids: Option<Vec<String>>,
    pub currency: Option<String>,
}

/// The first of the reply's ids, if it lists any.
pub open spec fn first_id_of(ids: Option<Vec<String>>) -> Option<Seq<char>> {
    match ids {
        Some(v) => if v@.len() > 0 {
            Some(v@[0]@)
        } else {
            None
        },
        None => None,
    }
}

/// The id a receipt keeps: the first one the reply lists.
pub fn first_id(ids: &Option<Vec<String>>) -> (r: Option<String>)
    ensures
        opt_string_view(r) == first_id_of(*ids),
{
    match ids {
        Some(v) => if v.len() > 0 {
            Some(v[0].clone())
        } else {
            None
        },
        None => None,
    }
}

/// The JSON request of a send: `{"sender", "message", "recipients":
/// [{"msisdn"}]}`.
pub struct GatewayApiRequest {
    pub sender: String,
    pub message: String,
    pub msisdn: String,
}

/// The message of an error reply: `"{message} ({code})"` when both are
/// present, the message alone, or else the start of the raw body.
pub open spec fn error_text(body: Seq<char>, parsed: Option<GatewayApiError>) -> Seq<char> {
    match parsed {
        Some(p) => match (p.code, p.message) {
            (Some(c), Some(m)) => m@ + " ("@ + c@ + ")"@,
            (None, Some(m)) => m@,
            (_, None) => first_chars(trim(body), 200),
        },
        None => first_chars(trim(body), 200),
    }
}

/// Map an HTTP status plus GatewayAPI's error body (decoded into `parsed`,
/// `None` when it is not such JSON) onto a normalised error.
///
/// GatewayAPI documents its failures by HTTP status (401 invalid key, 403
/// unauthorised IP, 422 invalid JSON) and carries a hexadecimal `code` plus a
/// human message in the body. The status is the reliable signal, so the codes
/// are passed through in the message rather than guessed at.
pub fn parse_error(status: u16, body: &str, parsed: Option<GatewayApiError>) -> (r: SmsError)
    ensures
        error_kind(r) == http_error_kind(status),
        error_message(r) == error_text(body@, parsed),
{
    let message = match parsed {
        Some(GatewayApiError { code: Some(code), message: Some(msg) }) => {
            let mut m = concat2(msg.as_str(), " (");
            m.append(code.as_str());
            m.append(")");
            m
        },
        Some(GatewayApiError { code: None, message: Some(msg) }) => msg,
        _ => String::from_str(first_chars_str(trim_str(body), 200)),
    };
    if status == 401 || status == 403 {
        SmsError::Auth(message)
    } else if status == 429 {
        SmsError::RateLimited(message)
    } else if 500 <= status && status <= 599 {
        SmsError::Transport(message)
    } else {
        SmsError::Other(message)
    }
}

pub struct GatewayApiProvider {
    pub token: String,
    pub sender: String,
    pub base_url: String,
}

impl GatewayApiProvider {
    /// Whether this adapter is the one built from `config`.
    pub open spec fn built_from(self, config: SmsConfig) -> bool {
        &&& self.token@ == config.api_secret@
        &&& self.sender@ == trim(config.sender@)
        &&& self.base_url@ == base_url_of(config)
    }

    pub fn new(config: &SmsConfig) -> (r: Self)
        ensures
            r.built_from(*config),
    {
        GatewayApiProvider {
            token: config.api_secret.clone(),
            sender: String::from_str(trim_str(config.sender.as_str())),
            base_url: base_url(config),
        }
    }

    /// `{base}/rest/mtsms`, where messages are posted.
    pub fn send_url(&self) -> (r: String)
        ensures
            r@ == self.base_url@ + "/rest/mtsms"@,
    {
        concat2(self.base_url.as_str(), "/rest/mtsms")
    }

    /// The `Authorization` header value: `Token <api token>`.
    pub fn authorization(&self) -> (r: String)
        ensures
            r@ == "Token "@ + self.token@,
    {
        concat2("Token ", self.token.as_str())
    }

    /// The request of a send: the configured sender, the text, and the
    /// recipient as digits without the `+`.
    pub fn send_request(&self, to: &str, body: &str) -> (r: GatewayApiRequest)
        ensures
            r.sender@ == self.sender@,
            r.message@ == body@,
            r.msisdn@ == without_plus_spec(to@),
    {
        GatewayApiRequest {
            sender: String::from_str(self.sender.as_str()),
            message: String::from_str(body),
            msisdn: without_plus(to),
        }
    }

    /// The outcome of a send from the reply's status and text, given the text
    /// decoded as an error reply and as an accepted-message reply.
    pub fn interpret_send(
        &self,
        status: u16,
        text: &str,
        err: Option<GatewayApiError>,
        reply: Option<GatewayApiReply>,
    ) -> (r: Result<SendReceipt, SmsError>)
        ensures
            is_success_spec(status) <==> r is Ok,
            r matches Err(e) ==> error_kind(e) == http_error_kind(status) && error_message(e)
                == error_text(text@, err),
            r matches Ok(rc) ==> rc.segments is None && match reply {
                Some(p) => opt_string_view(rc.message_id) == first_id_of(p.ids)
                    && opt_string_view(rc.currency) == opt_string_view(p.currency),
                None => rc.message_id is None && rc.currency is None,
            },
    {
        if !is_success(status) {
            return Err(parse_error(status, text, err));
        }
        match reply {
            Some(p) => Ok(SendReceipt { message_id: first_id(&p.ids), segments: None, currency: p.currency }),
            None => Ok(SendReceipt { message_id: None, segments: None, currency: None }),
        }
    }

    /// GatewayAPI has no credential check endpoint.
    pub fn check(&self) -> (r: Result<(), SmsError>)
        ensures
            r matches Err(e) && error_kind(e) == "other" && error_message(e) == check_unsupported_text(),
    {
        Err(check_unsupported())
    }
}

} // verus!
