//! Localised SMS bodies.
//!
//! Bodies live above the gateways: what a guest reads must not depend on
//! which gateway happens to be configured. They are translated with the same
//! Fluent catalogue mechanism as the emails, using the language stored on the
//! booking, so a French guest gets a French SMS and a French email.
//!
//! Length matters here in a way it never does for email. A GSM-7 message fits
//! 160 characters per billed segment, but a single character outside GSM-7
//! (Polish `ł`, a curly quote, an emoji) switches the whole message to UCS-2 and
//! drops that to 70. Keep the `sms-*` catalogue entries terse, and keep the
//! host-controlled part (the event title) bounded.
use vstd::prelude::*;

use super::{SmsContext, SmsEvent, opt_str_view};
use crate::i18n::{args_view, translate, translate_spec};
use crate::text::{concat2, str_eq, trim, trim_end, trim_end_str, trim_str};

verus! {

/// Event titles are host-controlled and unbounded; past this we shorten so the
/// date and time, which are the point of the message, always survive.
pub const MAX_TITLE_CHARS: usize = 60;

/// Hard ceiling on a body, as a backstop against a pathological catalogue
/// entry. Two GSM-7 segments' worth.
pub const MAX_BODY_CHARS: usize = 306;

/// Characters of the GSM 03.38 basic set besides the ASCII letters and
/// digits.
pub const GSM7_EXTRA: &'static str = "@£$¥èéùìòÇØøÅåΔ_ΦΓΛΩΠΨΣΘΞÆæßÉ!\"#¤%&'()*+,-./:;<=>?¡ÄÖÑÜ§¿äöñüà\n\r ";

/// What [`shorten`] returns: `value` itself when it has at most `max`
/// characters, otherwise its first `max - 1` characters (none when `max` is
/// 0), trailing whitespace removed, followed by an ellipsis.
pub open spec fn shorten_spec(value: Seq<char>, max: int) -> Seq<char> {
    if value.len() <= max {
        value
    } else {
        trim_end(value.take(if max >= 1 { max - 1 } else { 0 })) + "…"@
    }
}

/// The catalogue key of each event.
pub open spec fn event_key(event: SmsEvent) -> &'static str {
    match event {
        SmsEvent::Confirmed => "sms-confirmed",
        SmsEvent::Cancelled => "sms-cancelled",
        SmsEvent::Rescheduled => "sms-rescheduled",
        SmsEvent::Reminder => "sms-reminder",
    }
}

/// The named arguments a body is formatted with.
pub open spec fn body_args(title: Seq<char>, date: Seq<char>, time: Seq<char>, tz: Seq<char>) -> Seq<
    (Seq<char>, Seq<char>),
> {
    seq![
        ("event"@, shorten_spec(title, MAX_TITLE_CHARS as int)),
        ("date"@, date),
        ("time"@, time),
        ("tz"@, tz),
    ]
}

/// The language a body is written in: the booking's, else English.
pub open spec fn body_lang(lang: Option<Seq<char>>) -> Seq<char> {
    match lang {
        Some(l) => l,
        None => "en"@,
    }
}

/// What [`compose`] returns for `event` and a context with the given details.
pub open spec fn compose_spec(
    event: SmsEvent,
    title: Seq<char>,
    date: Seq<char>,
    time: Seq<char>,
    tz: Seq<char>,
    lang: Option<Seq<char>>,
) -> Seq<char> {
    shorten_spec(
        trim(translate_spec(body_lang(lang), event_key(event)@, body_args(title, date, time, tz))),
        MAX_BODY_CHARS as int,
    )
}

/// Build the body for a booking event in the guest's language.
pub fn compose(event: SmsEvent, ctx: &SmsContext<'_>) -> (r: String)
    ensures
        r@ == compose_spec(
            event,
            ctx.event_title@,
            ctx.date@,
            ctx.start_time@,
            ctx.timezone@,
            opt_str_view(ctx.lang),
        ),
        r@.len() <= MAX_BODY_CHARS,
{
    let lang = match ctx.lang {
        Some(l) => l,
        None => "en",
    };
    let key = match event {
        SmsEvent::Confirmed => "sms-confirmed",
        SmsEvent::Cancelled => "sms-cancelled",
        SmsEvent::Rescheduled => "sms-rescheduled",
        SmsEvent::Reminder => "sms-reminder",
    };
    let title = shorten(ctx.event_title, MAX_TITLE_CHARS);
    let mut args: Vec<(String, String)> = Vec::new();
    args.push((String::from_str("event"), title));
    args.push((String::from_str("date"), String::from_str(ctx.date)));
    args.push((String::from_str("time"), String::from_str(ctx.start_time)));
    args.push((String::from_str("tz"), String::from_str(ctx.timezone)));
    assert(args_view(args@) =~= body_args(
        ctx.event_title@,
        ctx.date@,
        ctx.start_time@,
        ctx.timezone@,
    ));
    let body = translate(lang, key, &args);
    let r = shorten(trim_str(body.as_str()), MAX_BODY_CHARS);
    proof {
        law_shorten_fits(trim(body@), MAX_BODY_CHARS as int);
    }
    r
}

/// Truncate on a character boundary, appending an ellipsis when anything was
/// cut. Counts `char`s, not bytes, so accented titles are not chopped mid-code
/// point.
pub fn shorten(value: &str, max_chars: usize) -> (r: String)
    ensures
        r@ == shorten_spec(value@, max_chars as int),
{
    let n = value.unicode_len();
    if n <= max_chars {
        return String::from_str(value);
    }
    let keep = if max_chars >= 1 {
        max_chars - 1
    } else {
        0
    };
    let kept = value.substring_char(0, keep);
    assert(kept@ =~= value@.take(keep as int));
    concat2(trim_end_str(kept), "…")
}

/// Removing trailing whitespace never lengthens a sequence.
pub proof fn lemma_trim_end_len(s: Seq<char>)
    ensures
        trim_end(s).len() <= s.len(),
    decreases s.len(),
{
    if s.len() > 0 && crate::text::is_ws(s.last()) {
        lemma_trim_end_len(s.drop_last());
    }
}

/// A shortened value never exceeds its limit (for any positive limit), and
/// a value within the limit is kept unchanged.
pub proof fn law_shorten_fits(value: Seq<char>, max: int)
    requires
        max >= 1,
    ensures
        shorten_spec(value, max).len() <= max,
        value.len() <= max ==> shorten_spec(value, max) == value,
{
    if value.len() > max {
        reveal_strlit("…");
        lemma_trim_end_len(value.take(max - 1));
    }
}

/// Whether `c` is an ASCII letter or digit.
pub open spec fn is_ascii_alnum(c: char) -> bool {
    ('0' <= c && c <= '9') || ('A' <= c && c <= 'Z') || ('a' <= c && c <= 'z')
}

/// Whether `c` is in the GSM 03.38 basic set.
pub open spec fn is_gsm7_char(c: char) -> bool {
    is_ascii_alnum(c) || GSM7_EXTRA@.contains(c)
}

/// Whether every character of `body` is in the GSM 03.38 basic set.
pub open spec fn is_gsm7_spec(body: Seq<char>) -> bool {
    forall|i: int| 0 <= i < body.len() ==> #[trigger] is_gsm7_char(body[i])
}

/// Whether `c` occurs in [`GSM7_EXTRA`].
fn in_gsm7_extra(c: char) -> (r: bool)
    ensures
        r == GSM7_EXTRA@.contains(c),
{
    let n = GSM7_EXTRA.unicode_len();
    let mut i: usize = 0;
    while i < n
        invariant
            i <= n,
            n == GSM7_EXTRA@.len(),
            forall|k: int| 0 <= k < i ==> GSM7_EXTRA@[k] != c,
        decreases n - i,
    {
        if GSM7_EXTRA.get_char(i) == c {
            return true;
        }
        i = i + 1;
    }
    false
}

/// Whether every character is in the GSM 03.38 basic set, which decides
/// whether a message is billed at 160 or 70 characters per segment.
///
/// The extension table (`{}`, `[]`, `€`, …) is intentionally left out: those
/// characters cost two GSM-7 slots each, so treating them as non-GSM only ever
/// over-estimates the segment count.
fn is_gsm7(body: &str) -> (r: bool)
    ensures
        r == is_gsm7_spec(body@),
{
    let n = body.unicode_len();
    let mut i: usize = 0;
    while i < n
        invariant
            i <= n,
            n == body@.len(),
            forall|k: int| 0 <= k < i ==> #[trigger] is_gsm7_char(body@[k]),
        decreases n - i,
    {
        let c = body.get_char(i);
        let alnum = ('0' <= c && c <= '9') || ('A' <= c && c <= 'Z') || ('a' <= c && c <= 'z');
        if !alnum && !in_gsm7_extra(c) {
            assert(!is_gsm7_char(body@[i as int]));
            return false;
        }
        i = i + 1;
    }
    true
}

/// Characters per segment: for a single-segment message, and per part of a
/// concatenated one.
pub open spec fn segment_sizes(gsm7: bool) -> (int, int) {
    if gsm7 {
        (160, 153)
    } else {
        (70, 67)
    }
}

/// The number of segments a body of `len` characters is billed as.
pub open spec fn segments_for(len: int, gsm7: bool) -> int {
    let (single, multi) = segment_sizes(gsm7);
    if len <= single {
        1
    } else {
        (len + multi - 1) / multi
    }
}

/// Estimated billed segments for a body. Used for logging and to keep the
/// catalogue honest in tests; the gateway's own count is authoritative.
pub fn estimate_segments(body: &str) -> (r: u32)
    ensures
        r == segments_for(body@.len() as int, is_gsm7_spec(body@)) as u32,
{
    let len = body.unicode_len();
    let gsm7 = is_gsm7(body);
    let (single, multi): (usize, usize) = if gsm7 {
        (160, 153)
    } else {
        (70, 67)
    };
    if len <= single {
        1
    } else {
        let q = len / multi;
        let c = if len % multi == 0 {
            q
        } else {
            q + 1
        };
        assert(c == (len + multi - 1) / multi as int) by (nonlinear_arith)
            requires
                multi > 0,
                q == len / multi,
                len % multi == 0 ==> c == q,
                len % multi != 0 ==> c == q + 1,
        ;
        c as u32
    }
}

/// Billing is monotone in length for a fixed alphabet: a longer body is never
/// estimated at fewer segments, and a body within one segment's capacity is
/// exactly one segment.
pub proof fn law_segments_monotone(a: int, b: int, gsm7: bool)
    requires
        0 <= a <= b,
    ensures
        segments_for(a, gsm7) <= segments_for(b, gsm7),
        segments_for(a, gsm7) >= 1,
        a <= segment_sizes(gsm7).0 <==> segments_for(a, gsm7) == 1,
{
    let (single, multi) = segment_sizes(gsm7);
    if a > single {
        assert((a + multi - 1) / multi <= (b + multi - 1) / multi) by (nonlinear_arith)
            requires
                a <= b,
                multi > 0,
        ;
        assert((a + multi - 1) / multi >= 2) by (nonlinear_arith)
            requires
                a > single,
                single >= multi,
                multi > 0,
        ;
    } else if b > single {
        assert((b + multi - 1) / multi >= 2) by (nonlinear_arith)
            requires
                b > single,
                single >= multi,
                multi > 0,
        ;
    }
}

/// The ceiling on a body is two GSM-7 segments' worth: whatever the event,
/// details and language, a composed body written in the GSM-7 alphabet is
/// billed as at most two segments.
pub proof fn law_composed_gsm7_body_fits_two_segments(
    event: SmsEvent,
    title: Seq<char>,
    date: Seq<char>,
    time: Seq<char>,
    tz: Seq<char>,
    lang: Option<Seq<char>>,
)
    requires
        is_gsm7_spec(compose_spec(event, title, date, time, tz, lang)),
    ensures
        segments_for(compose_spec(event, title, date, time, tz, lang).len() as int, true) <= 2,
{
    let body = compose_spec(event, title, date, time, tz, lang);
    law_shorten_fits(
        trim(translate_spec(body_lang(lang), event_key(event)@, body_args(title, date, time, tz))),
        MAX_BODY_CHARS as int,
    );
    law_segments_monotone(body.len() as int, MAX_BODY_CHARS as int, true);
}

/// Each event is written from its own catalogue entry, the one named
/// `sms-` followed by the event's log name: a cancellation is rendered from
/// `sms-cancelled`, never from another event's message, and no two events
/// share an entry.
pub proof fn law_each_event_has_its_own_message(
    event: SmsEvent,
    other: SmsEvent,
    title: Seq<char>,
    date: Seq<char>,
    time: Seq<char>,
    tz: Seq<char>,
    lang: Option<Seq<char>>,
)
    ensures
        compose_spec(event, title, date, time, tz, lang) == shorten_spec(
            trim(
                translate_spec(
                    body_lang(lang),
                    "sms-"@ + super::event_name(event)@,
                    body_args(title, date, time, tz),
                ),
            ),
            MAX_BODY_CHARS as int,
        ),
        event != other ==> event_key(event)@ != event_key(other)@,
        event == SmsEvent::Cancelled ==> event_key(event)@ == "sms-cancelled"@,
{
    reveal_strlit("sms-");
    reveal_strlit("sms-confirmed");
    reveal_strlit("sms-cancelled");
    reveal_strlit("sms-rescheduled");
    reveal_strlit("sms-reminder");
    reveal_strlit("confirmed");
    reveal_strlit("cancelled");
    reveal_strlit("rescheduled");
    reveal_strlit("reminder");
    assert("sms-"@ + "confirmed"@ =~= "sms-confirmed"@);
    assert("sms-"@ + "cancelled"@ =~= "sms-cancelled"@);
    assert("sms-"@ + "rescheduled"@ =~= "sms-rescheduled"@);
    assert("sms-"@ + "reminder"@ =~= "sms-reminder"@);
    assert("sms-confirmed"@[5] != "sms-cancelled"@[5]);
    assert("sms-confirmed"@[4] != "sms-rescheduled"@[4]);
    assert("sms-confirmed"@[4] != "sms-reminder"@[4]);
    assert("sms-cancelled"@[4] != "sms-rescheduled"@[4]);
    assert("sms-cancelled"@[4] != "sms-reminder"@[4]);
    assert("sms-rescheduled"@.len() != "sms-reminder"@.len());
}

} // verus!
