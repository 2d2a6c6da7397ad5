use calrs::i18n::{supported_with_labels, translate};
use calrs::sms::message::{compose, estimate_segments, shorten, MAX_BODY_CHARS, MAX_TITLE_CHARS};
use calrs::sms::{SmsContext, SmsEvent};

fn ctx<'a>(title: &'a str, lang: Option<&'a str>) -> SmsContext<'a> {
    SmsContext {
        phone: "+33612345678",
        event_title: title,
        date: "Monday, 17 August 2026",
        start_time: "14:00",
        timezone: "Europe/Paris",
        lang,
    }
}

const EVENTS: [SmsEvent; 4] = [
    SmsEvent::Confirmed,
    SmsEvent::Cancelled,
    SmsEvent::Rescheduled,
    SmsEvent::Reminder,
];

#[test]
fn composes_every_event_with_the_booking_details() {
    for event in EVENTS {
        let body = compose(event, &ctx("Product demo", None));
        assert!(
            body.contains("Product demo"),
            "{}: {}",
            event.as_str(),
            body
        );
        assert!(body.contains("14:00"), "{}: {}", event.as_str(), body);
        // A missing catalogue entry makes Fluent echo the key back.
        assert!(!body.starts_with("sms-"), "{}: {}", event.as_str(), body);
    }
}

#[test]
fn every_shipped_body_fits_two_segments() {
    for (lang, _label) in supported_with_labels() {
        for event in EVENTS {
            let body = compose(event, &ctx("Product demo", Some(lang)));
            let segments = estimate_segments(&body);
            assert!(
                segments <= 2,
                "{}/{} would bill {} segments: {}",
                lang,
                event.as_str(),
                segments,
                body
            );
        }
    }
}

#[test]
fn long_titles_are_shortened_so_the_time_survives() {
    let long = "A".repeat(200);
    let body = compose(SmsEvent::Confirmed, &ctx(&long, None));
    assert!(body.contains('…'));
    assert!(body.contains("14:00"));
    assert!(body.chars().count() <= MAX_BODY_CHARS);
}

#[test]
fn segment_estimate_switches_to_ucs2_on_non_gsm_characters() {
    let ascii = "a".repeat(160);
    assert_eq!(estimate_segments(&ascii), 1);
    // One Polish character forces UCS-2, so the same length costs more.
    let polish = format!("{}ł", "a".repeat(159));
    assert!(estimate_segments(&polish) > 1);
}

#[test]
fn segment_sizes_follow_the_gsm_and_ucs2_tables() {
    assert_eq!(estimate_segments(""), 1);
    assert_eq!(estimate_segments(&"a".repeat(161)), 2);
    assert_eq!(estimate_segments(&"a".repeat(306)), 2);
    assert_eq!(estimate_segments(&"a".repeat(307)), 3);
    assert_eq!(estimate_segments(&"ł".repeat(70)), 1);
    assert_eq!(estimate_segments(&"ł".repeat(71)), 2);
    assert_eq!(estimate_segments(&"ł".repeat(134)), 2);
    assert_eq!(estimate_segments(&"ł".repeat(135)), 3);
    // Accented Latin letters of the GSM table keep the 7-bit alphabet.
    assert_eq!(estimate_segments(&"é".repeat(160)), 1);
}

#[test]
fn a_longer_body_never_costs_fewer_segments() {
    let mut previous = 0;
    for n in 0..400 {
        let s = estimate_segments(&"b".repeat(n));
        assert!(s >= previous);
        previous = s;
    }
}

#[test]
fn shorten_keeps_short_values_and_cuts_long_ones_with_an_ellipsis() {
    assert_eq!(shorten("Product demo", MAX_TITLE_CHARS), "Product demo");
    assert_eq!(shorten("abcdef", 4), "abc…");
    // Whitespace left at the cut is dropped before the ellipsis.
    assert_eq!(shorten("ab  cdef", 4), "ab…");
    assert_eq!(shorten("héllo wörld", 6), "héllo…");
    assert_eq!(shorten("abc", 0), "…");
    let long = "x".repeat(100);
    assert_eq!(shorten(&long, MAX_TITLE_CHARS).chars().count(), MAX_TITLE_CHARS);
}

#[test]
fn the_english_body_has_the_catalogue_wording() {
    let body = compose(SmsEvent::Confirmed, &ctx("Product demo", None));
    assert_eq!(
        body,
        "Booking confirmed: Product demo on Monday, 17 August 2026 at 14:00 (Europe/Paris)."
    );
}

#[test]
fn a_language_without_a_catalogue_falls_back_to_english() {
    let english = compose(SmsEvent::Reminder, &ctx("Product demo", Some("en")));
    let unknown = compose(SmsEvent::Reminder, &ctx("Product demo", Some("xx")));
    assert_eq!(english, unknown);
    let french = compose(SmsEvent::Reminder, &ctx("Product demo", Some("fr")));
    assert_ne!(english, french);
    assert!(french.starts_with("Rappel"));
}

#[test]
fn a_missing_key_is_echoed_back() {
    let args = vec![("event".to_string(), "x".to_string())];
    assert_eq!(translate("en", "sms-unknown", &args), "sms-unknown");
    assert_eq!(translate("fr", "sms-unknown", &args), "sms-unknown");
}

#[test]
fn a_gsm_body_at_the_ceiling_bills_two_segments() {
    let with_date = |date: &str| {
        compose(
            SmsEvent::Confirmed,
            &SmsContext {
                phone: "+33612345678",
                event_title: "Product demo",
                date,
                start_time: "14:00",
                timezone: "Europe/Paris",
                lang: None,
            },
        )
    };
    let fixed = with_date("").chars().count();
    let exact = with_date(&"d".repeat(MAX_BODY_CHARS - fixed));
    assert_eq!(exact.chars().count(), MAX_BODY_CHARS);
    assert!(!exact.contains('…'));
    assert_eq!(estimate_segments(&exact), 2);

    // One more character and the body is cut; the ellipsis is outside the
    // GSM-7 table, so the cut body is billed as UCS-2.
    let cut = with_date(&"d".repeat(MAX_BODY_CHARS - fixed + 1));
    assert_eq!(cut.chars().count(), MAX_BODY_CHARS);
    assert!(cut.ends_with('…'));
    assert_eq!(estimate_segments(&cut), 5);
}
