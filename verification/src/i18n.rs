//! Translations of the guest-facing SMS texts, in Fluent syntax.
//!
//! Each supported language has one catalogue; a language without a catalogue
//! falls back to English, and a key missing from a catalogue is echoed back,
//! which is what makes a missing entry visible in tests.
use vstd::prelude::*;

use crate::sms::phone::opt_view;
use crate::text::str_eq;

verus! {

/// The English catalogue.
pub const CATALOGUE_EN: &'static str = "sms-confirmed = Booking confirmed: { $event } on { $date } at { $time } ({ $tz }).
sms-cancelled = Booking cancelled: { $event } on { $date } at { $time } ({ $tz }).
sms-rescheduled = Booking moved: { $event } is now on { $date } at { $time } ({ $tz }).
sms-reminder = Reminder: { $event } on { $date } at { $time } ({ $tz }).
";

/// The French catalogue.
pub const CATALOGUE_FR: &'static str = "sms-confirmed = Réservation confirmée : { $event } le { $date } à { $time } ({ $tz }).
sms-cancelled = Réservation annulée : { $event } le { $date } à { $time } ({ $tz }).
sms-rescheduled = Réservation déplacée : { $event } a lieu le { $date } à { $time } ({ $tz }).
sms-reminder = Rappel : { $event } le { $date } à { $time } ({ $tz }).
";

/// The languages with a catalogue, and how each is offered to users.
pub fn supported_with_labels() -> (r: Vec<(&'static str, &'static str)>)
    ensures
        r@ == seq![("en", "English"), ("fr", "Français")],
{
    let mut r = Vec::new();
    r.push(("en", "English"));
    r.push(("fr", "Français"));
    r
}

/// The catalogue used for `lang`: its own when it has one, else English.
pub open spec fn catalogue_of(lang: Seq<char>) -> &'static str {
    if lang == "fr"@ {
        CATALOGUE_FR
    } else {
        CATALOGUE_EN
    }
}

/// The locale the catalogue for `lang` is written in.
pub open spec fn locale_of(lang: Seq<char>) -> &'static str {
    if lang == "fr"@ {
        "fr"
    } else {
        "en"
    }
}

/// Named arguments of a message, as plain strings.
pub open spec fn args_view(args: Seq<(String, String)>) -> Seq<(Seq<char>, Seq<char>)> {
    args.map_values(|a: (String, String)| (a.0@, a.1@))
}

/// What Fluent produces for message `key` of the catalogue `source` (written
/// for `locale`) with the named string arguments `args`, Unicode isolation
/// marks around placeables when `isolating`; `None` when the catalogue does
/// not parse, the locale is not a language tag, or the message is missing or
/// has no value.
pub uninterp spec fn fluent_format_result(
    source: Seq<char>,
    locale: Seq<char>,
    key: Seq<char>,
    args: Seq<(Seq<char>, Seq<char>)>,
    isolating: bool,
) -> Option<Seq<char>>;

/// Format message `key` of the Fluent catalogue `source` with `args`, through
/// `fluent_bundle`: the catalogue is parsed with `FluentResource::try_new`, put
/// into a `FluentBundle` for `locale` (parsed as a `unic_langid`
/// `LanguageIdentifier`), and the message's value is rendered with
/// `FluentBundle::format_pattern`. The contract says only that the result is a
/// function of the arguments, named [`fluent_format_result`]; what Fluent's
/// formatting rules produce is not restated.
///
/// Only the two shipped catalogues are admitted: `format_pattern` panics on a
/// select expression over a number literal too large for its plural
/// operands, and neither catalogue has a select expression.
#[verifier::external_body]
fn fluent_format(
    source: &str,
    locale: &str,
    key: &str,
    args: &Vec<(String, String)>,
    isolating: bool,
) -> (r: Option<String>)
    requires
        source@ == CATALOGUE_EN@ || source@ == CATALOGUE_FR@,
    ensures
        opt_view(r) == fluent_format_result(source@, locale@, key@, args_view(args@), isolating),
{
    let resource = fluent_bundle::FluentResource::try_new(source.to_string()).ok()?;
    let locale: unic_langid::LanguageIdentifier = locale.parse().ok()?;
    let mut bundle = fluent_bundle::FluentBundle::new(vec![locale]);
    bundle.set_use_isolating(isolating);
    bundle.add_resource(resource).ok()?;
    let pattern = bundle.get_message(key)?.value()?;
    let fa: fluent_bundle::FluentArgs = args.iter().map(|(k, v)| (k.as_str(), v.as_str())).collect();
    let mut errors = Vec::new();
    Some(bundle.format_pattern(pattern, Some(&fa), &mut errors).into_owned())
}

/// What [`translate`] returns: the formatted message, or the key itself when
/// the catalogue has no such message. SMS bodies are plain text, so no
/// isolation marks are inserted.
pub open spec fn translate_spec(lang: Seq<char>, key: Seq<char>, args: Seq<(Seq<char>, Seq<char>)>) -> Seq<char> {
    match fluent_format_result(catalogue_of(lang)@, locale_of(lang)@, key, args, false) {
        Some(t) => t,
        None => key,
    }
}

/// Translate `key` into `lang` with the named arguments `args`.
pub fn translate(lang: &str, key: &str, args: &Vec<(String, String)>) -> (r: String)
    ensures
        r@ == translate_spec(lang@, key@, args_view(args@)),
{
    let french = str_eq(lang, "fr");
    let source = if french {
        CATALOGUE_FR
    } else {
        CATALOGUE_EN
    };
    let locale = if french {
        "fr"
    } else {
        "en"
    };
    match fluent_format(source, locale, key, args, false) {
        Some(t) => t,
        None => String::from_str(key),
    }
}

} // verus!
