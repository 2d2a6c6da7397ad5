use calrs::sms::phone::{
    is_e164, is_listed, is_valid_country_code, normalize, without_plus, COUNTRY_CODES,
    DEFAULT_COUNTRY_CODE,
};

#[test]
fn accepts_plausible_e164() {
    assert!(is_e164("+15551234567"));
    assert!(is_e164(" +447911123456 "));
}

#[test]
fn rejects_missing_plus_or_bad_length_or_non_digits() {
    assert!(!is_e164("07911123456"));
    assert!(!is_e164("+1234"));
    assert!(!is_e164("+1555abc4567"));
    assert!(!is_e164(""));
    // 16 digits is one past the E.164 ceiling.
    assert!(!is_e164("+1234567890123456"));
}

#[test]
fn normalizes_national_numbers_with_the_default_country() {
    assert_eq!(
        normalize("06 12 34 56 78", "+33").as_deref(),
        Some("+33612345678")
    );
    // No trunk prefix: nothing is dropped.
    assert_eq!(
        normalize("5551234567", "+1").as_deref(),
        Some("+15551234567")
    );
}

#[test]
fn preserves_international_forms() {
    assert_eq!(
        normalize("+33 6 12 34 56 78", "+1").as_deref(),
        Some("+33612345678")
    );
    assert_eq!(
        normalize("0033612345678", "+1").as_deref(),
        Some("+33612345678")
    );
}

#[test]
fn strips_punctuation_guests_actually_type() {
    assert_eq!(
        normalize("(06) 12-34.56/78", "+33").as_deref(),
        Some("+33612345678")
    );
}

#[test]
fn rejects_junk() {
    assert_eq!(normalize("", "+33"), None);
    assert_eq!(normalize("not a phone", "+33"), None);
    assert_eq!(normalize("0612345678", "+999"), None);
    // Only one trunk zero is dropped, so this stays too long to be E.164.
    assert_eq!(normalize("+00000000000000000", "+33"), None);
}

#[test]
fn country_code_table_is_usable() {
    assert!(is_valid_country_code("+33"));
    assert!(is_valid_country_code(" +1 "));
    assert!(!is_valid_country_code("33"));
    assert!(is_valid_country_code(DEFAULT_COUNTRY_CODE));
}

#[test]
fn without_plus_matches_gateway_wire_format() {
    assert_eq!(without_plus("+33612345678"), "33612345678");
}

#[test]
fn a_normalized_number_is_its_own_normal_form() {
    let once = normalize("(06) 12-34.56/78", "+33").unwrap();
    assert!(is_e164(&once));
    assert_eq!(normalize(&once, "+1").as_deref(), Some(once.as_str()));
}

#[test]
fn without_plus_strips_surrounding_space_and_every_leading_plus() {
    assert_eq!(without_plus("  ++4512345678 "), "4512345678");
    assert_eq!(without_plus("4512345678"), "4512345678");
    let back = format!("+{}", without_plus("+4512345678"));
    assert_eq!(back, "+4512345678");
}

#[test]
fn every_table_entry_is_a_valid_country_code() {
    assert!(!COUNTRY_CODES.is_empty());
    for (code, _name) in COUNTRY_CODES.iter() {
        assert!(is_listed(code), "{}", code);
        assert!(is_valid_country_code(code), "{}", code);
    }
    assert!(!is_listed("+999"));
}

#[test]
fn a_bad_default_country_refuses_national_numbers_only() {
    assert_eq!(normalize("0612345678", "33"), None);
    assert_eq!(
        normalize("+33612345678", "33").as_deref(),
        Some("+33612345678")
    );
}

#[test]
fn whitespace_inside_the_number_is_never_kept() {
    assert_eq!(
        normalize("+33612345678\t-", "+33").as_deref(),
        Some("+33612345678")
    );
    let n = normalize("+33612345678\t)", "+1").unwrap();
    assert_eq!(n, n.trim());
    assert_eq!(normalize(&n, "+44"), Some(n.clone()));
}

#[test]
fn typed_punctuation_never_changes_the_outcome() {
    for cc in ["+33", "+1", "33"] {
        assert_eq!(
            normalize("06 12 34 56 78", cc),
            normalize("(06)12-34.56/78", cc)
        );
        assert_eq!(
            normalize("\u{a0}+33 6 12\u{a0}34 56 78 ", cc),
            normalize("+33612345678", cc)
        );
    }
}
