//! Twilio adapter.
//!
//! `POST /2010-04-01/Accounts/{AccountSid}/Messages.json`, form-encoded, HTTP
//! Basic with the Account SID as the username. Twilio wants recipients in full
//! E.164 with the leading `+`.
//!
//! Errors arrive as JSON with a numeric `code`; the ones worth distinguishing
//! are mapped onto [`SmsError`], the rest keep Twilio's own message.
//! Reference: <https://www.twilio.com/docs/api/errors>.
use vstd::prelude::*;

use super::factory::{base_url, base_url_of};
use super::{
    SendReceipt, SmsConfig, SmsError, error_kind, error_message, is_success, is_success_spec,
    opt_string_view,
};
use crate::text::{
    concat2, concat3, first_chars, first_chars_str, lower_eq, parse_u32, parse_u32_spec,
    str_lower_eq, trim, trim_str,
};

verus! {

/// Twilio-provided template used in trial mode, picked from the list at
/// <https://www.twilio.com/docs/usage/trials/try-out-sms> as the closest in
/// meaning to what calrs actually sends.
pub const TRIAL_TEMPLATE: &'static str = "sms_appointment_reminders";

/// Switch for trial mode, read from the environment only.
pub const TRIAL_ENV_VAR: &'static str = "CALRS_SMS_TWILIO_TRIAL";

/// Whether a value of [`TRIAL_ENV_VAR`] switches trial mode on: once trimmed
/// and ASCII-lowercased, one of `1`, `true`, `yes`, `on`.
pub open spec fn trial_value_on(v: Seq<char>) -> bool {
    let t = trim(v);
    lower_eq(t, "1"@) || lower_eq(t, "true"@) || lower_eq(t, "yes"@) || lower_eq(t, "on"@)
}

/// Whether to send Twilio's predefined template instead of the real message,
/// given the value of [`TRIAL_ENV_VAR`] (`None` when unset).
///
/// Twilio trial accounts refuse custom message bodies outright: `Body` has to
/// carry the *name* of one of their predefined templates. That makes the whole
/// Twilio path untestable without a paid account, which is a poor deal for a
/// contributor who just wants to check that a booking reaches a phone.
///
/// Deliberately environment-only, and deliberately not part of the
/// `CALRS_SMS_*` block (it composes with a database-stored config too). An
/// `sms_config` column or an admin field would let an operator flip it and
/// quietly ship canned templates to real guests; turning it on has to be an act
/// of whoever runs the process. `CALRS_SMS_<PROVIDER>_<OPTION>` is the shape to
/// follow for any future gateway-specific extra.
pub fn trial_mode_from(value: Option<&str>) -> (r: bool)
    ensures
        r == match value {
            Some(v) => trial_value_on(v@),
            None => false,
        },
{
    match value {
        Some(v) => {
            let t = trim_str(v);
            str_lower_eq(t, "1") || str_lower_eq(t, "true") || str_lower_eq(t, "yes")
                || str_lower_eq(t, "on")
        },
        None => false,
    }
}

/// The value to put in Twilio's `Body` parameter.
///
/// A substitution rather than an extra parameter, because that is what the
/// trial API asks for: the request keeps the same `To`/`From`/`Body` shape on
/// both paths, so the response, and therefore [`SendReceipt`] parsing, is
/// identical whether or not trial mode is on.
pub fn request_body<'a>(trial: bool, body: &'a str) -> (r: &'a str)
    ensures
        r@ == if trial {
            TRIAL_TEMPLATE@
        } else {
            body@
        },
{
    if trial {
        TRIAL_TEMPLATE
    } else {
        body
    }
}

/// The fields of a Twilio error reply that decide the mapping.
pub struct TwilioErrorBody {
    pub code: Option<i64>,
    pub message: Option<String>,
}

/// The fields of an accepted-message reply.
pub struct TwilioMessage {
    pub sid: Option<String>,
    pub num_segments: Option<String>,
    pub price_unit: Option<String>,
}

/// The field of an account reply that the trial guard reads.
pub struct TwilioAccount {
    pub account_type: Option<String>,
}

/// Which rule of [`parse_error`] applies, in the order they are tried.
pub open spec fn error_rule(status: u16, code: Option<i64>) -> int {
    if code == Some(21211i64) || code == Some(21614i64) || code == Some(21610i64) {
        1
    } else if code == Some(21212i64) || code == Some(21606i64) || code == Some(21659i64) || code
        == Some(21660i64) {
        2
    } else if code == Some(20003i64) || status == 401 || status == 403 {
        3
    } else if status == 429 || code == Some(20429i64) {
        4
    } else if code == Some(21608i64) {
        5
    } else if 500 <= status < 600 {
        6
    } else {
        7
    }
}

/// The error kind each rule maps to.
pub open spec fn rule_kind(rule: int) -> &'static str {
    if rule == 1 {
        "invalid_recipient"
    } else if rule == 2 {
        "invalid_sender"
    } else if rule == 3 {
        "auth"
    } else if rule == 4 {
        "rate_limited"
    } else if rule == 6 {
        "transport"
    } else {
        "other"
    }
}

/// The gateway's message, or the start of the raw body when it gave none.
pub open spec fn error_text(body: Seq<char>, parsed: Option<TwilioErrorBody>) -> Seq<char> {
    match parsed {
        Some(p) => match p.message {
            Some(m) => m@,
            None => first_chars(trim(body), 200),
        },
        None => first_chars(trim(body), 200),
    }
}

/// What the trial-refusal rule appends to the gateway's message.
pub open spec fn trial_refusal_note() -> Seq<char> {
    " (trial accounts can only message verified numbers)"@
}

/// The kind and message [`parse_error`] produces.
pub open spec fn parse_error_post(status: u16, body: Seq<char>, parsed: Option<TwilioErrorBody>, e: SmsError) -> bool {
    let code = match parsed {
        Some(p) => p.code,
        None => None,
    };
    let rule = error_rule(status, code);
    &&& error_kind(e) == rule_kind(rule)
    &&& error_message(e) == if rule == 5 {
        error_text(body, parsed) + trial_refusal_note()
    } else {
        error_text(body, parsed)
    }
}

/// Map an HTTP status plus Twilio's JSON error body (decoded into `parsed`,
/// `None` when the body is not such JSON) onto a normalised error.
pub fn parse_error(status: u16, body: &str, parsed: Option<TwilioErrorBody>) -> (r: SmsError)
    ensures
        parse_error_post(status, body@, parsed, r),
{
    let ghost p0 = parsed;
    let (code, message) = match parsed {
        Some(p) => match p.message {
            Some(m) => (p.code, m),
            None => (p.code, String::from_str(first_chars_str(trim_str(body), 200))),
        },
        None => (None, String::from_str(first_chars_str(trim_str(body), 200))),
    };
    assert(message@ == error_text(body@, p0));
    if code == Some(21211i64) || code == Some(21614i64) || code == Some(21610i64) {
        SmsError::InvalidRecipient(message)
    } else if code == Some(21212i64) || code == Some(21606i64) || code == Some(21659i64) || code
        == Some(21660i64) {
        SmsError::InvalidSender(message)
    } else if code == Some(20003i64) || status == 401 || status == 403 {
        SmsError::Auth(message)
    } else if status == 429 || code == Some(20429i64) {
        SmsError::RateLimited(message)
    } else if code == Some(21608i64) {
        SmsError::Other(
            concat2(message.as_str(), " (trial accounts can only message verified numbers)"),
        )
    } else if 500 <= status && status < 600 {
        SmsError::Transport(message)
    } else {
        SmsError::Other(message)
    }
}

/// The segment count Twilio reported, when it is a number.
pub open spec fn twilio_segments(m: TwilioMessage) -> Option<u32> {
    match m.num_segments {
        Some(s) => parse_u32_spec(s@),
        None => None,
    }
}

/// The receipt for an accepted message whose reply decoded to `msg` (`None`
/// when the reply was not the expected JSON, which yields an empty receipt).
pub fn receipt_from(msg: Option<TwilioMessage>) -> (r: SendReceipt)
    ensures
        match msg {
            Some(m) => opt_string_view(r.message_id) == opt_string_view(m.sid) && r.segments
                == twilio_segments(m) && opt_string_view(r.currency) == opt_string_view(
                m.price_unit,
            ),
            None => r.message_id is None && r.segments is None && r.currency is None,
        },
{
    match msg {
        Some(m) => {
            let segments = match &m.num_segments {
                Some(s) => parse_u32(s.as_str()),
                None => None,
            };
            SendReceipt { message_id: m.sid, segments, currency: m.price_unit }
        },
        None => SendReceipt { message_id: None, segments: None, currency: None },
    }
}

/// Whether a decoded account reply says the account is a full (paid) one.
pub open spec fn is_full_account(account: Option<TwilioAccount>) -> bool {
    match account {
        Some(a) => match a.account_type {
            Some(t) => t@ == "Full"@,
            None => false,
        },
        None => false,
    }
}

/// The error [`trial_mismatch`] reports.
pub open spec fn trial_mismatch_text() -> Seq<char> {
    TRIAL_ENV_VAR@
        + " is set but this is a full Twilio account, not a trial one. Guests would receive the literal text \""@
        + TRIAL_TEMPLATE@
        + "\" instead of their booking details, and you would be billed for it. Unset the variable."@
}

/// Guard the one way trial mode can cost money instead of saving it.
///
/// On a trial account `Body` must name a template. On a full account that same
/// value is just text, so a flag left set after the account is upgraded texts
/// every guest the literal string `sms_appointment_reminders`, at full price,
/// instead of their booking details. The credential check already fetches the
/// account, so it can say so without spending anything. `account` is the
/// decoded account reply, `None` when it was not the expected JSON.
///
/// The opposite mistake (a trial account with the flag off) needs no guard
/// here: it fails closed at send time with Twilio's own refusal, which
/// [`parse_error`] already surfaces.
pub fn trial_mismatch(trial: bool, account: Option<TwilioAccount>) -> (r: Option<SmsError>)
    ensures
        r is Some <==> (trial && is_full_account(account)),
        r matches Some(e) ==> error_kind(e) == "other" && error_message(e) == trial_mismatch_text(),
{
    if !trial {
        return None;
    }
    let account = match account {
        Some(a) => a,
        None => {
            return None;
        },
    };
    match account.account_type {
        Some(t) => {
            if crate::text::str_eq(t.as_str(), "Full") {
                let mut m = String::from_str(TRIAL_ENV_VAR);
                m.append(
                    " is set but this is a full Twilio account, not a trial one. Guests would receive the literal text \"",
                );
                m.append(TRIAL_TEMPLATE);
                m.append(
                    "\" instead of their booking details, and you would be billed for it. Unset the variable.",
                );
                Some(SmsError::Other(m))
            } else {
                None
            }
        },
        None => None,
    }
}

pub struct TwilioProvider {
    pub account_sid: String,
    pub auth_token: String,
    pub from: String,
    pub base_url: String,
    pub trial: bool,
}

impl TwilioProvider {
    /// Whether this adapter is the one built from `config` with the trial
    /// switch `trial`.
    pub open spec fn built_from(self, config: SmsConfig, trial: bool) -> bool {
        &&& self.account_sid@ == trim(config.api_key@)
        &&& self.auth_token@ == config.api_secret@
        &&& self.from@ == trim(config.sender@)
        &&& self.base_url@ == base_url_of(config)
        &&& self.trial == trial
    }

    /// The adapter for `config`; `trial` is the value of the trial switch
    /// (see [`trial_mode_from`]).
    pub fn new(config: &SmsConfig, trial: bool) -> (r: Self)
        ensures
            r.built_from(*config, trial),
    {
        TwilioProvider {
            account_sid: String::from_str(trim_str(config.api_key.as_str())),
            auth_token: config.api_secret.clone(),
            from: String::from_str(trim_str(config.sender.as_str())),
            base_url: base_url(config),
            trial,
        }
    }

    /// `{base}/2010-04-01/Accounts/{sid}/Messages.json`, where messages are
    /// posted.
    pub fn messages_url(&self) -> (r: String)
        ensures
            r@ == self.base_url@ + "/2010-04-01/Accounts/"@ + self.account_sid@ + "/Messages.json"@,
    {
        let mut r = concat3(self.base_url.as_str(), "/2010-04-01/Accounts/", self.account_sid.as_str());
        r.append("/Messages.json");
        r
    }

    /// `{base}/2010-04-01/Accounts/{sid}.json`, fetched by the credential
    /// check.
    pub fn account_url(&self) -> (r: String)
        ensures
            r@ == self.base_url@ + "/2010-04-01/Accounts/"@ + self.account_sid@ + ".json"@,
    {
        let mut r = concat3(self.base_url.as_str(), "/2010-04-01/Accounts/", self.account_sid.as_str());
        r.append(".json");
        r
    }

    /// The form parameters of a send: `To`, `From`, and `Body` (the trial
    /// template when trial mode is on). The request authenticates with HTTP
    /// Basic, the Account SID as user and the auth token as password.
    pub fn send_form(&self, to: &str, body: &str) -> (r: Vec<(String, String)>)
        ensures
            r@.len() == 3,
            r@[0].0@ == "To"@ && r@[0].1@ == to@,
            r@[1].0@ == "From"@ && r@[1].1@ == self.from@,
            r@[2].0@ == "Body"@ && r@[2].1@ == (if self.trial {
                TRIAL_TEMPLATE@
            } else {
                body@
            }),
    {
        let mut r = Vec::new();
        r.push((String::from_str("To"), String::from_str(to)));
        r.push((String::from_str("From"), String::from_str(self.from.as_str())));
        r.push((String::from_str("Body"), String::from_str(request_body(self.trial, body))));
        r
    }

    /// The outcome of a send from the reply's status and text, given the text
    /// decoded as an accepted-message reply (`msg`) and as an error reply
    /// (`err`), each `None` when it is not such JSON.
    pub fn interpret_send(
        &self,
        status: u16,
        text: &str,
        msg: Option<TwilioMessage>,
        err: Option<TwilioErrorBody>,
    ) -> (r: Result<SendReceipt, SmsError>)
        ensures
            is_success_spec(status) <==> r is Ok,
            r matches Err(e) ==> parse_error_post(status, text@, err, e),
            r matches Ok(rc) ==> match msg {
                Some(m) => opt_string_view(rc.message_id) == opt_string_view(m.sid)
                    && rc.segments == twilio_segments(m) && opt_string_view(rc.currency)
                    == opt_string_view(m.price_unit),
                None => rc.message_id is None && rc.segments is None && rc.currency is None,
            },
    {
        if !is_success(status) {
            return Err(parse_error(status, text, err));
        }
        Ok(receipt_from(msg))
    }

    /// The outcome of the credential check from the account reply's status
    /// and text, given the text decoded as an error reply and as an account
    /// reply.
    pub fn interpret_check(
        &self,
        status: u16,
        text: &str,
        err: Option<TwilioErrorBody>,
        account: Option<TwilioAccount>,
    ) -> (r: Result<(), SmsError>)
        ensures
            !is_success_spec(status) ==> (r matches Err(e) && parse_error_post(status, text@, err, e)),
            is_success_spec(status) ==> (r is Err <==> (self.trial && is_full_account(account))),
            is_success_spec(status) ==> (r matches Err(e) ==> error_kind(e) == "other"
                && error_message(e) == trial_mismatch_text()),
    {
        if !is_success(status) {
            return Err(parse_error(status, text, err));
        }
        match trial_mismatch(self.trial, account) {
            Some(e) => Err(e),
            None => Ok(()),
        }
    }
}

/// Twilio's own error codes decide before the HTTP status does: whatever the
/// status, codes 21211, 21614 and 21610 mean the recipient was refused,
/// 21212, 21606, 21659 and 21660 the sender, 20003 the credentials, and 21608
/// a trial account messaging an unverified number (unless the status says
/// the request was unauthorised or throttled). The gateway's message is kept
/// word for word, with the trial note appended for 21608.
pub proof fn law_twilio_codes_decide(status: u16, body: Seq<char>, p: TwilioErrorBody, e: SmsError)
    requires
        parse_error_post(status, body, Some(p), e),
    ensures
        p.code == Some(21211i64) || p.code == Some(21614i64) || p.code == Some(21610i64)
            ==> error_kind(e) == "invalid_recipient",
        p.code == Some(21212i64) || p.code == Some(21606i64) || p.code == Some(21659i64)
            || p.code == Some(21660i64) ==> error_kind(e) == "invalid_sender",
        p.code == Some(20003i64) ==> error_kind(e) == "auth",
        !(p.code == Some(21211i64) || p.code == Some(21614i64) || p.code == Some(21610i64)
            || p.code == Some(21212i64) || p.code == Some(21606i64) || p.code == Some(21659i64)
            || p.code == Some(21660i64)) ==> {
            &&& (status == 401 || status == 403 ==> error_kind(e) == "auth")
            &&& (status == 429 && p.code != Some(20003i64) ==> error_kind(e) == "rate_limited")
        },
        p.code == Some(21608i64) && status != 401 && status != 403 && status != 429 ==> (
        error_kind(e) == "other" && (p.message matches Some(m) ==> error_message(e) == m@
            + " (trial accounts can only message verified numbers)"@)),
        p.code != Some(21608i64) ==> (p.message matches Some(m) ==> error_message(e) == m@),
{
}

} // verus!
