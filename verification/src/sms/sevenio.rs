//! seven.io adapter.
//!
//! `POST {base}/api/sms`, form-encoded, authenticated with an `X-Api-Key`
//! header. `Accept: application/json` is required to get a structured body.
//!
//! The important quirk: seven.io answers **HTTP 200 for failures too**, and
//! puts the outcome in a `success` string ("100" accepted, "900" auth failed,
//! "500" out of credit). Parsing that into [`SmsError`] is exactly the kind of
//! per-gateway knowledge the adapter exists to contain.
//! Reference: <https://docs.seven.io/en/rest-api/endpoints/sms>.
use vstd::prelude::*;

use super::factory::{base_url, base_url_of};
use super::phone::{without_plus, without_plus_spec};
use super::{
    SendReceipt, SmsConfig, SmsError, error_kind, error_message, is_success, is_success_spec,
    opt_string_view,
};
use crate::text::{concat2, concat3, first_chars, first_chars_str, str_eq, trim, trim_str};

verus! {

/// One entry of the `messages` array of a send reply.
pub struct SevenMessage {
    pub id: Option<String>,
    pub parts: Option<u32>,
    pub success: Option<bool>,
    pub error_text: Option<String>,
}

/// The fields of a send reply that decide the outcome.
pub struct SevenResponse {
    pub success: Option<String>,
    pub messages: Option<Vec<SevenMessage>>,
}

/// The message of a status code: the gateway's detail with the code, or the
/// bare code.
pub open spec fn status_text(code: Seq<char>, detail: Option<Seq<char>>) -> Seq<char> {
    match detail {
        Some(d) => if trim(d).len() > 0 {
            trim(d) + " (code "@ + code + ")"@
        } else {
            "code "@ + code
        },
        None => "code "@ + code,
    }
}

/// The error kind of a `success` code; `None` for the accepted code `100`.
pub open spec fn status_kind(code: Seq<char>) -> Option<&'static str> {
    if code == "100"@ {
        None
    } else if code == "900"@ || code == "902"@ || code == "903"@ {
        Some("auth")
    } else if code == "500"@ {
        Some("insufficient_credit")
    } else if code == "101"@ || code == "202"@ {
        Some("invalid_recipient")
    } else {
        Some("other")
    }
}

/// The view of an optional borrowed string.
pub open spec fn opt_str_view(o: Option<&str>) -> Option<Seq<char>> {
    match o {
        Some(s) => Some(s@),
        None => None,
    }
}

/// What [`parse_status`] promises for `code` and `detail`.
pub open spec fn parse_status_post(code: Seq<char>, detail: Option<Seq<char>>, r: Result<(), SmsError>) -> bool {
    match status_kind(code) {
        None => r is Ok,
        Some(k) => r matches Err(e) && error_kind(e) == k && error_message(e) == status_text(code, detail),
    }
}

/// Map seven.io's `success` code onto a normalised error, or `Ok` for "100".
pub fn parse_status(code: &str, detail: Option<&str>) -> (r: Result<(), SmsError>)
    ensures
        parse_status_post(code@, opt_str_view(detail), r),
{
    let message = match detail {
        Some(d) => {
            let t = trim_str(d);
            if t.unicode_len() > 0 {
                let mut m = concat3(t, " (code ", code);
                m.append(")");
                m
            } else {
                concat2("code ", code)
            }
        },
        None => concat2("code ", code),
    };
    if str_eq(code, "100") {
        Ok(())
    } else if str_eq(code, "900") || str_eq(code, "902") || str_eq(code, "903") {
        Err(SmsError::Auth(message))
    } else if str_eq(code, "500") {
        Err(SmsError::InsufficientCredit(message))
    } else if str_eq(code, "101") || str_eq(code, "202") {
        Err(SmsError::InvalidRecipient(message))
    } else {
        Err(SmsError::Other(message))
    }
}

/// The first message entry of a reply, if any.
pub open spec fn first_message(p: SevenResponse) -> Option<SevenMessage> {
    match p.messages {
        Some(v) => if v@.len() > 0 {
            Some(v@[0])
        } else {
            None
        },
        None => None,
    }
}

/// The `success` code of a reply, empty when absent.
pub open spec fn success_code(p: SevenResponse) -> Seq<char> {
    match p.success {
        Some(c) => c@,
        None => Seq::empty(),
    }
}

/// The detail text of the first entry, if any.
pub open spec fn first_detail(p: SevenResponse) -> Option<Seq<char>> {
    match first_message(p) {
        Some(m) => opt_string_view(m.error_text),
        None => None,
    }
}

/// Whether the first entry reports its recipient as failed.
pub open spec fn first_rejected(p: SevenResponse) -> bool {
    match first_message(p) {
        Some(m) => m.success == Some(false),
        None => false,
    }
}

/// The message of a per-recipient rejection.
pub open spec fn rejection_text(p: SevenResponse) -> Seq<char> {
    match first_detail(p) {
        Some(t) => t,
        None => "recipient rejected"@,
    }
}

/// What [`parse_response`] promises for the reply text `body` decoded into
/// `parsed`.
pub open spec fn parse_response_post(body: Seq<char>, parsed: Option<SevenResponse>, r: Result<SendReceipt, SmsError>) -> bool {
    match parsed {
        None => r matches Err(e) && error_kind(e) == "other" && error_message(e) == first_chars(trim(body), 200),
        Some(p) => match status_kind(success_code(p)) {
            Some(k) => r matches Err(e) && error_kind(e) == k && error_message(e) == status_text(success_code(p), first_detail(p)),
            None => if first_rejected(p) {
                r matches Err(e) && error_kind(e) == "invalid_recipient" && error_message(e) == rejection_text(p)
            } else {
                r matches Ok(rc) && opt_string_view(rc.message_id) == (match first_message(p) {
                    Some(m) => opt_string_view(m.id),
                    None => None,
                }) && rc.segments == (match first_message(p) {
                    Some(m) => m.parts,
                    None => None,
                }) && opt_string_view(rc.currency) == Some("EUR"@)
            },
        },
    }
}

/// Parse a 200 reply into a receipt or a normalised error. `parsed` is the
/// reply text decoded as JSON, `None` when it is not the expected JSON.
pub fn parse_response(body: &str, parsed: Option<SevenResponse>) -> (r: Result<SendReceipt, SmsError>)
    ensures
        parse_response_post(body@, parsed, r),
{
    let p = match parsed {
        Some(p) => p,
        None => {
            return Err(SmsError::Other(String::from_str(first_chars_str(trim_str(body), 200))));
        },
    };
    let ghost gp = p;
    let first: Option<&SevenMessage> = match &p.messages {
        Some(v) => if v.len() > 0 {
            Some(&v[0])
        } else {
            None
        },
        None => None,
    };
    let detail: Option<&str> = match first {
        Some(m) => match &m.error_text {
            Some(t) => Some(t.as_str()),
            None => None,
        },
        None => None,
    };
    let code: &str = match &p.success {
        Some(c) => c.as_str(),
        None => "",
    };
    proof {
        reveal_strlit("");
        assert(""@ =~= Seq::<char>::empty());
    }
    match parse_status(code, detail) {
        Ok(()) => {},
        Err(e) => {
            return Err(e);
        },
    }
    // "100" is an accepted batch; an individual recipient can still fail.
    if let Some(m) = first {
        if m.success == Some(false) {
            let text = match &m.error_text {
                Some(t) => String::from_str(t.as_str()),
                None => String::from_str("recipient rejected"),
            };
            return Err(SmsError::InvalidRecipient(text));
        }
    }
    let (message_id, segments) = match first {
        Some(m) => (
            match &m.id {
                Some(i) => Some(String::from_str(i.as_str())),
                None => None,
            },
            m.parts,
        ),
        None => (None, None),
    };
    Ok(SendReceipt { message_id, segments, currency: Some(String::from_str("EUR")) })
}

/// The kind of an HTTP-level failure, by status.
pub open spec fn http_error_kind(status: u16) -> &'static str {
    if status == 401 || status == 403 {
        "auth"
    } else if status == 429 {
        "rate_limited"
    } else if 500 <= status <= 599 {
        "transport"
    } else {
        "other"
    }
}

/// The normalised error for a non-2xx reply: the status decides the kind,
/// and the start of the trimmed reply text is the message.
pub fn http_error(status: u16, text: &str) -> (r: SmsError)
    ensures
        error_kind(r) == http_error_kind(status),
        error_message(r) == first_chars(trim(text@), 200),
{
    let message = String::from_str(first_chars_str(trim_str(text), 200));
    if status == 401 || status == 403 {
        SmsError::Auth(message)
    } else if status == 429 {
        SmsError::RateLimited(message)
    } else if 500 <= status && status <= 599 {
        SmsError::Transport(message)
    } else {
        SmsError::Other(message)
    }
}

pub struct SevenIoProvider {
    pub api_key: String,
    pub sender: String,
    pub base_url: String,
}

impl SevenIoProvider {
    /// Whether this adapter is the one built from `config`.
    pub open spec fn built_from(self, config: SmsConfig) -> bool {
        &&& self.api_key@ == config.api_secret@
        &&& self.sender@ == trim(config.sender@)
        &&& self.base_url@ == base_url_of(config)
    }

    pub fn new(config: &SmsConfig) -> (r: Self)
        ensures
            r.built_from(*config),
    {
        SevenIoProvider {
            api_key: config.api_secret.clone(),
            sender: String::from_str(trim_str(config.sender.as_str())),
            base_url: base_url(config),
        }
    }

    /// `{base}/api/sms`, where messages are posted.
    pub fn send_url(&self) -> (r: String)
        ensures
            r@ == self.base_url@ + "/api/sms"@,
    {
        concat2(self.base_url.as_str(), "/api/sms")
    }

    /// `{base}/api/balance`, fetched by the credential check.
    pub fn balance_url(&self) -> (r: String)
        ensures
            r@ == self.base_url@ + "/api/balance"@,
    {
        concat2(self.base_url.as_str(), "/api/balance")
    }

    /// The request headers: the key, and a request for a JSON reply.
    pub fn headers(&self) -> (r: Vec<(String, String)>)
        ensures
            r@.len() == 2,
            r@[0].0@ == "X-Api-Key"@ && r@[0].1@ == self.api_key@,
            r@[1].0@ == "Accept"@ && r@[1].1@ == "application/json"@,
    {
        let mut r = Vec::new();
        r.push((String::from_str("X-Api-Key"), String::from_str(self.api_key.as_str())));
        r.push((String::from_str("Accept"), String::from_str("application/json")));
        r
    }

    /// The form parameters of a send: the recipient without its `+`, the
    /// text, and the sender when one is configured.
    pub fn send_form(&self, to: &str, body: &str) -> (r: Vec<(String, String)>)
        ensures
            r@.len() == if self.sender@.len() == 0 {
                2int
            } else {
                3int
            },
            r@[0].0@ == "to"@ && r@[0].1@ == without_plus_spec(to@),
            r@[1].0@ == "text"@ && r@[1].1@ == body@,
            self.sender@.len() > 0 ==> r@[2].0@ == "from"@ && r@[2].1@ == self.sender@,
    {
        let mut r = Vec::new();
        r.push((String::from_str("to"), without_plus(to)));
        r.push((String::from_str("text"), String::from_str(body)));
        if self.sender.as_str().unicode_len() > 0 {
            r.push((String::from_str("from"), String::from_str(self.sender.as_str())));
        }
        r
    }

    /// The outcome of a send from the reply's status and text; `parsed` is
    /// the text decoded as a send reply. Transport-level failures still
    /// surface as real status codes; a 2xx reply carries the outcome in its
    /// body.
    pub fn interpret_send(&self, status: u16, text: &str, parsed: Option<SevenResponse>) -> (r: Result<
        SendReceipt,
        SmsError,
    >)
        ensures
            !is_success_spec(status) ==> (r matches Err(e) && error_kind(e) == http_error_kind(status)
                && error_message(e) == first_chars(trim(text@), 200)),
            is_success_spec(status) ==> parse_response_post(text@, parsed, r),
    {
        if !is_success(status) {
            return Err(http_error(status, text));
        }
        parse_response(text, parsed)
    }

    /// The outcome of the credential check from the balance reply. An
    /// invalid key answers 200 with a bare "900" rather than a balance.
    pub fn interpret_check(&self, status: u16, text: &str) -> (r: Result<(), SmsError>)
        ensures
            !is_success_spec(status) ==> (r matches Err(e) && error_kind(e) == "auth"
                && error_message(e) == first_chars(trim(text@), 200)),
            is_success_spec(status) ==> (r is Err <==> trim(text@) == "900"@),
            is_success_spec(status) ==> (r matches Err(e) ==> error_kind(e) == "auth"
                && error_message(e) == "code 900"@),
    {
        if !is_success(status) {
            return Err(SmsError::Auth(String::from_str(first_chars_str(trim_str(text), 200))));
        }
        if str_eq(trim_str(text), "900") {
            return Err(SmsError::Auth(String::from_str("code 900")));
        }
        Ok(())
    }
}

/// How a failed HTTP reply is classified on every gateway that goes by the
/// status alone: 401 and 403 are rejected credentials, 429 is throttling,
/// 5xx is the gateway being unreachable, and anything else keeps the
/// gateway's message as a generic error.
pub proof fn law_http_status_classes(status: u16)
    ensures
        status == 401 || status == 403 ==> http_error_kind(status) == "auth",
        status == 429 ==> http_error_kind(status) == "rate_limited",
        500 <= status <= 599 ==> http_error_kind(status) == "transport",
        status != 401 && status != 403 && status != 429 && !(500 <= status <= 599)
            ==> http_error_kind(status) == "other",
{
}

/// seven.io's `success` codes: "100" is the only acceptance; "900", "902"
/// and "903" are rejected credentials, "500" is missing credit, "101" and
/// "202" a refused recipient, and every other code a generic error; the
/// message carries the code.
pub proof fn law_seven_codes(code: Seq<char>, detail: Option<Seq<char>>, r: Result<(), SmsError>)
    requires
        parse_status_post(code, detail, r),
    ensures
        r is Ok <==> code == "100"@,
        code == "900"@ || code == "902"@ || code == "903"@ ==> (r matches Err(e) && error_kind(e) == "auth"),
        code == "500"@ ==> (r matches Err(e) && error_kind(e) == "insufficient_credit"),
        code == "101"@ || code == "202"@ ==> (r matches Err(e) && error_kind(e) == "invalid_recipient"),
        detail is None ==> (r matches Err(e) ==> error_message(e) == "code "@ + code),
{
    reveal_strlit("100");
    reveal_strlit("900");
    reveal_strlit("902");
    reveal_strlit("903");
    reveal_strlit("500");
    reveal_strlit("101");
    reveal_strlit("202");
    assert("100"@ =~= seq!['1', '0', '0']);
    assert("900"@ =~= seq!['9', '0', '0']);
    assert("902"@ =~= seq!['9', '0', '2']);
    assert("903"@ =~= seq!['9', '0', '3']);
    assert("500"@ =~= seq!['5', '0', '0']);
    assert("101"@ =~= seq!['1', '0', '1']);
    assert("202"@ =~= seq!['2', '0', '2']);
    if code == "900"@ || code == "902"@ || code == "903"@ || code == "500"@ || code == "101"@ || code == "202"@ {
        assert(code != "100"@) by {
            if code == "100"@ {
                assert(code[0] == '1' && code[2] == '0');
            }
        }
    }
    if code == "500"@ {
        assert(code[0] == '5');
    }
    if code == "101"@ || code == "202"@ {
        assert(code[0] == '1' || code[0] == '2');
    }
}

} // verus!
