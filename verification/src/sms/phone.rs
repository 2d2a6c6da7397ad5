//! Guest phone numbers: normalisation to E.164 and the country calling codes
//! the booking form and the admin panel offer.
//!
//! Gateways all want E.164 (`+33612345678`), while guests type what they type:
//! `06 12 34 56 78`, `0033612345678`, `+33 6 12 34 56 78`. Normalisation
//! happens once, server-side, at booking time; everything downstream assumes
//! the stored guest phone is already E.164.
//!
//! This is deliberately not libphonenumber. It handles the trunk-prefix and
//! international-prefix cases that cover ordinary input, and leaves genuine
//! validity to the gateway, which is the only real authority on whether a
//! number can receive a message.
use vstd::prelude::*;
use crate::text::{
    all_digits, concat2, is_digit, is_ws, trim_end, trim_start, starts_with, str_all_digits, str_eq, str_starts_with,
    trim, trim_start_char, trim_start_char_str, trim_str,
};

verus! {

/// Used when nothing is configured yet, so the booking form can render before
/// an admin has been through the panel.
pub const DEFAULT_COUNTRY_CODE: &'static str = "+33";

/// Country calling codes offered in the admin panel and used to normalise
/// locally formatted guest numbers: `(code, label)`.
pub const COUNTRY_CODES: [(&'static str, &'static str); 202] = [
    ("+1", "United States / Canada (+1)"),
    ("+20", "Egypt (+20)"),
    ("+27", "South Africa (+27)"),
    ("+30", "Greece (+30)"),
    ("+31", "Netherlands (+31)"),
    ("+32", "Belgium (+32)"),
    ("+33", "France (+33)"),
    ("+34", "Spain (+34)"),
    ("+36", "Hungary (+36)"),
    ("+39", "Italy (+39)"),
    ("+40", "Romania (+40)"),
    ("+41", "Switzerland (+41)"),
    ("+43", "Austria (+43)"),
    ("+44", "United Kingdom (+44)"),
    ("+45", "Denmark (+45)"),
    ("+46", "Sweden (+46)"),
    ("+47", "Norway (+47)"),
    ("+48", "Poland (+48)"),
    ("+49", "Germany (+49)"),
    ("+52", "Mexico (+52)"),
    ("+53", "Cuba (+53)"),
    ("+54", "Argentina (+54)"),
    ("+55", "Brazil (+55)"),
    ("+56", "Chile (+56)"),
    ("+57", "Colombia (+57)"),
    ("+58", "Venezuela (+58)"),
    ("+60", "Malaysia (+60)"),
    ("+61", "Australia (+61)"),
    ("+62", "Indonesia (+62)"),
    ("+63", "Philippines (+63)"),
    ("+64", "New Zealand (+64)"),
    ("+65", "Singapore (+65)"),
    ("+66", "Thailand (+66)"),
    ("+7", "Russia / Kazakhstan (+7)"),
    ("+81", "Japan (+81)"),
    ("+82", "South Korea (+82)"),
    ("+84", "Vietnam (+84)"),
    ("+86", "China (+86)"),
    ("+90", "Turkey (+90)"),
    ("+91", "India (+91)"),
    ("+92", "Pakistan (+92)"),
    ("+93", "Afghanistan (+93)"),
    ("+94", "Sri Lanka (+94)"),
    ("+95", "Myanmar (+95)"),
    ("+98", "Iran (+98)"),
    ("+212", "Morocco (+212)"),
    ("+213", "Algeria (+213)"),
    ("+216", "Tunisia (+216)"),
    ("+218", "Libya (+218)"),
    ("+220", "Gambia (+220)"),
    ("+221", "Senegal (+221)"),
    ("+222", "Mauritania (+222)"),
    ("+223", "Mali (+223)"),
    ("+224", "Guinea (+224)"),
    ("+225", "Côte d'Ivoire (+225)"),
    ("+226", "Burkina Faso (+226)"),
    ("+227", "Niger (+227)"),
    ("+228", "Togo (+228)"),
    ("+229", "Benin (+229)"),
    ("+230", "Mauritius (+230)"),
    ("+231", "Liberia (+231)"),
    ("+232", "Sierra Leone (+232)"),
    ("+233", "Ghana (+233)"),
    ("+234", "Nigeria (+234)"),
    ("+235", "Chad (+235)"),
    ("+236", "Central African Republic (+236)"),
    ("+237", "Cameroon (+237)"),
    ("+238", "Cape Verde (+238)"),
    ("+239", "São Tomé and Príncipe (+239)"),
    ("+240", "Equatorial Guinea (+240)"),
    ("+241", "Gabon (+241)"),
    ("+242", "Republic of the Congo (+242)"),
    ("+243", "DR Congo (+243)"),
    ("+244", "Angola (+244)"),
    ("+245", "Guinea-Bissau (+245)"),
    ("+248", "Seychelles (+248)"),
    ("+249", "Sudan (+249)"),
    ("+250", "Rwanda (+250)"),
    ("+251", "Ethiopia (+251)"),
    ("+252", "Somalia (+252)"),
    ("+253", "Djibouti (+253)"),
    ("+254", "Kenya (+254)"),
    ("+255", "Tanzania (+255)"),
    ("+256", "Uganda (+256)"),
    ("+257", "Burundi (+257)"),
    ("+258", "Mozambique (+258)"),
    ("+260", "Zambia (+260)"),
    ("+261", "Madagascar (+261)"),
    ("+262", "Réunion / Mayotte (+262)"),
    ("+263", "Zimbabwe (+263)"),
    ("+264", "Namibia (+264)"),
    ("+265", "Malawi (+265)"),
    ("+266", "Lesotho (+266)"),
    ("+267", "Botswana (+267)"),
    ("+268", "Eswatini (+268)"),
    ("+269", "Comoros (+269)"),
    ("+290", "Saint Helena (+290)"),
    ("+291", "Eritrea (+291)"),
    ("+297", "Aruba (+297)"),
    ("+298", "Faroe Islands (+298)"),
    ("+299", "Greenland (+299)"),
    ("+350", "Gibraltar (+350)"),
    ("+351", "Portugal (+351)"),
    ("+352", "Luxembourg (+352)"),
    ("+353", "Ireland (+353)"),
    ("+354", "Iceland (+354)"),
    ("+355", "Albania (+355)"),
    ("+356", "Malta (+356)"),
    ("+357", "Cyprus (+357)"),
    ("+358", "Finland (+358)"),
    ("+359", "Bulgaria (+359)"),
    ("+370", "Lithuania (+370)"),
    ("+371", "Latvia (+371)"),
    ("+372", "Estonia (+372)"),
    ("+373", "Moldova (+373)"),
    ("+374", "Armenia (+374)"),
    ("+375", "Belarus (+375)"),
    ("+376", "Andorra (+376)"),
    ("+377", "Monaco (+377)"),
    ("+378", "San Marino (+378)"),
    ("+380", "Ukraine (+380)"),
    ("+381", "Serbia (+381)"),
    ("+382", "Montenegro (+382)"),
    ("+383", "Kosovo (+383)"),
    ("+385", "Croatia (+385)"),
    ("+386", "Slovenia (+386)"),
    ("+387", "Bosnia and Herzegovina (+387)"),
    ("+389", "North Macedonia (+389)"),
    ("+420", "Czech Republic (+420)"),
    ("+421", "Slovakia (+421)"),
    ("+423", "Liechtenstein (+423)"),
    ("+500", "Falkland Islands (+500)"),
    ("+501", "Belize (+501)"),
    ("+502", "Guatemala (+502)"),
    ("+503", "El Salvador (+503)"),
    ("+504", "Honduras (+504)"),
    ("+505", "Nicaragua (+505)"),
    ("+506", "Costa Rica (+506)"),
    ("+507", "Panama (+507)"),
    ("+508", "Saint Pierre and Miquelon (+508)"),
    ("+509", "Haiti (+509)"),
    ("+590", "Guadeloupe / Saint Martin (+590)"),
    ("+591", "Bolivia (+591)"),
    ("+592", "Guyana (+592)"),
    ("+593", "Ecuador (+593)"),
    ("+594", "French Guiana (+594)"),
    ("+595", "Paraguay (+595)"),
    ("+596", "Martinique (+596)"),
    ("+597", "Suriname (+597)"),
    ("+598", "Uruguay (+598)"),
    ("+599", "Caribbean Netherlands / Curaçao (+599)"),
    ("+670", "Timor-Leste (+670)"),
    ("+672", "Australian External Territories (+672)"),
    ("+673", "Brunei (+673)"),
    ("+674", "Nauru (+674)"),
    ("+675", "Papua New Guinea (+675)"),
    ("+676", "Tonga (+676)"),
    ("+677", "Solomon Islands (+677)"),
    ("+678", "Vanuatu (+678)"),
    ("+679", "Fiji (+679)"),
    ("+680", "Palau (+680)"),
    ("+681", "Wallis and Futuna (+681)"),
    ("+682", "Cook Islands (+682)"),
    ("+683", "Niue (+683)"),
    ("+685", "Samoa (+685)"),
    ("+686", "Kiribati (+686)"),
    ("+687", "New Caledonia (+687)"),
    ("+688", "Tuvalu (+688)"),
    ("+689", "French Polynesia (+689)"),
    ("+690", "Tokelau (+690)"),
    ("+691", "Micronesia (+691)"),
    ("+692", "Marshall Islands (+692)"),
    ("+850", "North Korea (+850)"),
    ("+852", "Hong Kong (+852)"),
    ("+853", "Macau (+853)"),
    ("+855", "Cambodia (+855)"),
    ("+856", "Laos (+856)"),
    ("+880", "Bangladesh (+880)"),
    ("+886", "Taiwan (+886)"),
    ("+960", "Maldives (+960)"),
    ("+961", "Lebanon (+961)"),
    ("+962", "Jordan (+962)"),
    ("+963", "Syria (+963)"),
    ("+964", "Iraq (+964)"),
    ("+965", "Kuwait (+965)"),
    ("+966", "Saudi Arabia (+966)"),
    ("+967", "Yemen (+967)"),
    ("+968", "Oman (+968)"),
    ("+970", "Palestine (+970)"),
    ("+971", "United Arab Emirates (+971)"),
    ("+972", "Israel (+972)"),
    ("+973", "Bahrain (+973)"),
    ("+974", "Qatar (+974)"),
    ("+975", "Bhutan (+975)"),
    ("+976", "Mongolia (+976)"),
    ("+977", "Nepal (+977)"),
    ("+992", "Tajikistan (+992)"),
    ("+993", "Turkmenistan (+993)"),
    ("+994", "Azerbaijan (+994)"),
    ("+995", "Georgia (+995)"),
    ("+996", "Kyrgyzstan (+996)"),
    ("+998", "Uzbekistan (+998)"),
];

/// Whether `c` is one of the country codes of [`COUNTRY_CODES`], as written
/// there (no surrounding whitespace).
pub open spec fn is_listed_code(c: Seq<char>) -> bool {
    exists|i: int| 0 <= i < COUNTRY_CODES@.len() && (#[trigger] COUNTRY_CODES@[i]).0@ == c
}

/// Whether `code`, once trimmed, is a listed country calling code.
pub open spec fn valid_country_code(code: Seq<char>) -> bool {
    is_listed_code(trim(code))
}

/// The separators guests type inside a number, dropped by [`normalize`].
pub open spec fn is_separator(c: char) -> bool {
    c == ' ' || c == '-' || c == '(' || c == ')' || c == '.' || c == '/' || c == '\u{a0}'
}

/// `s` with every separator removed, order otherwise kept.
pub open spec fn strip_separators(s: Seq<char>) -> Seq<char>
    decreases s.len(),
{
    if s.len() == 0 {
        s
    } else if is_separator(s.last()) {
        strip_separators(s.drop_last())
    } else {
        strip_separators(s.drop_last()).push(s.last())
    }
}

/// Loose E.164: once trimmed, a `+` followed by 8 to 15 ASCII digits.
pub open spec fn is_e164_spec(raw: Seq<char>) -> bool {
    let t = trim(raw);
    &&& t.len() > 0
    &&& t[0] == '+'
    &&& 8 <= t.len() - 1 <= 15
    &&& all_digits(t.drop_first())
}

/// The candidate number before the final E.164 check: `None` when a
/// national-form number meets an unknown country code.
pub open spec fn normalize_candidate(cleaned: Seq<char>, country_code: Seq<char>) -> Option<
    Seq<char>,
> {
    let country = trim(country_code);
    if starts_with(cleaned, seq!['0', '0']) {
        Some(seq!['+'] + cleaned.skip(2))
    } else if cleaned[0] == '+' {
        Some(cleaned)
    } else if !is_listed_code(country) {
        None
    } else if cleaned[0] == '0' {
        Some(country + cleaned.drop_first())
    } else {
        Some(country + cleaned)
    }
}

/// What [`normalize`] returns for `raw` and `country_code`.
pub open spec fn normalize_spec(raw: Seq<char>, country_code: Seq<char>) -> Option<Seq<char>> {
    let cleaned = strip_separators(trim(raw));
    if cleaned.len() == 0 {
        None
    } else {
        match normalize_candidate(cleaned, country_code) {
            Some(n) => if is_e164_spec(n) {
                Some(trim(n))
            } else {
                None
            },
            None => None,
        }
    }
}

/// What [`without_plus`] returns: trimmed, every leading `+` removed.
pub open spec fn without_plus_spec(s: Seq<char>) -> Seq<char> {
    trim_start_char(trim(s), '+')
}

/// The view of an optional owned string.
pub open spec fn opt_view(o: Option<String>) -> Option<Seq<char>> {
    match o {
        Some(s) => Some(s@),
        None => None,
    }
}

/// Removing separators leaves a separator-free sequence untouched.
pub proof fn lemma_strip_separators_noop(s: Seq<char>)
    requires
        forall|i: int| 0 <= i < s.len() ==> !is_separator(#[trigger] s[i]),
    ensures
        strip_separators(s) == s,
    decreases s.len(),
{
    if s.len() > 0 {
        lemma_strip_separators_noop(s.drop_last());
        assert(s.drop_last().push(s.last()) =~= s);
    }
}

/// Trimming an E.164 string gives an E.164 string with nothing left to trim.
pub proof fn lemma_e164_trimmed(e: Seq<char>)
    requires
        is_e164_spec(e),
    ensures
        is_e164_spec(trim(e)),
        trim(trim(e)) == trim(e),
{
    let t = trim(e);
    assert(is_digit(t.drop_first()[t.len() - 2]));
    assert(t.last() == t.drop_first()[t.len() - 2]);
    assert(trim_start(t) == t);
    assert(trim_end(t) == t);
}

/// A string that already passes the E.164 check is normalised to itself,
/// surrounding whitespace aside, whatever the default country code: numbers
/// such as `+33612345678` "stay as they are".
pub proof fn law_e164_is_a_fixed_point(e: Seq<char>, country_code: Seq<char>)
    requires
        is_e164_spec(e),
    ensures
        normalize_spec(e, country_code) == Some(trim(e)),
        is_e164_spec(trim(e)),
{
    lemma_e164_trimmed(e);
    let t = trim(e);
    assert forall|i: int| 0 <= i < t.len() implies !is_separator(#[trigger] t[i]) by {
        if i > 0 {
            assert(t[i] == t.drop_first()[i - 1]);
            assert(is_digit(t.drop_first()[i - 1]));
        }
    }
    lemma_strip_separators_noop(t);
    assert(!starts_with(t, seq!['0', '0'])) by {
        if starts_with(t, seq!['0', '0']) {
            assert(t.subrange(0, 2)[0] == t[0]);
        }
    }
}

/// Whatever [`normalize`] returns is E.164 with no surrounding whitespace,
/// and normalising it again, whatever the default country code, gives it
/// back unchanged.
pub proof fn law_normalize_is_idempotent(raw: Seq<char>, cc: Seq<char>, other_cc: Seq<char>)
    requires
        normalize_spec(raw, cc) is Some,
    ensures
        is_e164_spec(normalize_spec(raw, cc)->0),
        trim(normalize_spec(raw, cc)->0) == normalize_spec(raw, cc)->0,
        normalize_spec(normalize_spec(raw, cc)->0, other_cc) == normalize_spec(raw, cc),
{
    let cleaned = strip_separators(trim(raw));
    let cand = normalize_candidate(cleaned, cc)->0;
    lemma_e164_trimmed(cand);
    law_e164_is_a_fixed_point(normalize_spec(raw, cc)->0, other_cc);
}

/// Whether every whitespace character of `s` is one of the separators
/// (a plain or a no-break space), as in anything a guest types on one line.
pub open spec fn ws_only_separators(s: Seq<char>) -> bool {
    forall|i: int| 0 <= i < s.len() && #[trigger] is_ws(s[i]) ==> is_separator(s[i])
}

/// A leading separator contributes nothing once separators are removed.
proof fn lemma_strip_drop_first(s: Seq<char>)
    requires
        s.len() > 0,
        is_separator(s[0]),
    ensures
        strip_separators(s) == strip_separators(s.drop_first()),
    decreases s.len(),
{
    if s.len() == 1 {
        assert(s.drop_first() =~= Seq::<char>::empty());
        assert(s.drop_last() =~= Seq::<char>::empty());
    } else {
        lemma_strip_drop_first(s.drop_last());
        assert(s.drop_last().drop_first() =~= s.drop_first().drop_last());
    }
}

/// Leading whitespace that is all separators changes nothing once
/// separators are removed.
proof fn lemma_strip_trim_start(s: Seq<char>)
    requires
        ws_only_separators(s),
    ensures
        strip_separators(trim_start(s)) == strip_separators(s),
        ws_only_separators(trim_start(s)),
    decreases s.len(),
{
    if s.len() > 0 && is_ws(s[0]) {
        assert(is_separator(s[0]));
        lemma_strip_drop_first(s);
        let d = s.drop_first();
        assert forall|i: int| 0 <= i < d.len() && #[trigger] is_ws(d[i]) implies is_separator(d[i]) by {
            assert(d[i] == s[i + 1]);
        }
        lemma_strip_trim_start(d);
    }
}

/// Trailing whitespace that is all separators changes nothing once
/// separators are removed.
proof fn lemma_strip_trim_end(s: Seq<char>)
    requires
        ws_only_separators(s),
    ensures
        strip_separators(trim_end(s)) == strip_separators(s),
    decreases s.len(),
{
    if s.len() > 0 && is_ws(s.last()) {
        assert(is_separator(s[s.len() - 1]));
        let d = s.drop_last();
        assert forall|i: int| 0 <= i < d.len() && #[trigger] is_ws(d[i]) implies is_separator(d[i]) by {
            assert(d[i] == s[i]);
        }
        lemma_strip_trim_end(d);
    }
}

/// The punctuation guests type never changes the outcome: two entries that
/// hold no whitespace but plain and no-break spaces, and that agree once
/// spaces, dashes, brackets, dots and slashes are removed, normalise alike
/// whatever the default country code.
pub proof fn law_typed_punctuation_is_ignored(raw1: Seq<char>, raw2: Seq<char>, cc: Seq<char>)
    requires
        ws_only_separators(raw1),
        ws_only_separators(raw2),
        strip_separators(raw1) == strip_separators(raw2),
    ensures
        normalize_spec(raw1, cc) == normalize_spec(raw2, cc),
{
    lemma_strip_trim_start(raw1);
    lemma_strip_trim_end(trim_start(raw1));
    lemma_strip_trim_start(raw2);
    lemma_strip_trim_end(trim_start(raw2));
}

/// A sequence whose first and last characters are not whitespace is its own
/// trimmed form.
proof fn lemma_trim_fixed(x: Seq<char>)
    requires
        x.len() > 0,
        !is_ws(x[0]),
        !is_ws(x.last()),
    ensures
        trim(x) == x,
{
    assert(trim_start(x) == x);
    assert(trim_end(x) == x);
}

/// Trimming the end keeps the first character.
proof fn lemma_trim_end_keeps_first(t: Seq<char>)
    requires
        trim_end(t).len() > 0,
    ensures
        trim_end(t)[0] == t[0],
    decreases t.len(),
{
    if t.len() > 0 && is_ws(t.last()) {
        lemma_trim_end_keeps_first(t.drop_last());
    }
}

/// What trimming leaves does not start with whitespace.
proof fn lemma_trim_first_not_ws(s: Seq<char>)
    requires
        trim(s).len() > 0,
    ensures
        !is_ws(trim(s)[0]),
    decreases s.len(),
{
    if s.len() > 0 && is_ws(s[0]) {
        lemma_trim_first_not_ws(s.drop_first());
    } else {
        lemma_trim_end_keeps_first(s);
    }
}

/// A run of digits is untouched by trimming and by separator removal.
proof fn lemma_digits_clean(d: Seq<char>)
    requires
        d.len() > 0,
        all_digits(d),
    ensures
        strip_separators(trim(d)) == d,
{
    assert(is_digit(d[0]));
    assert(is_digit(d[d.len() - 1]));
    lemma_trim_fixed(d);
    assert forall|i: int| 0 <= i < d.len() implies !is_separator(#[trigger] d[i]) by {
        assert(is_digit(d[i]));
    }
    lemma_strip_separators_noop(d);
}

/// One national trunk `0` is dropped, whatever the length of the number:
/// a number typed with its trunk zero normalises exactly as the same number
/// typed without it, and, when the result is a plausible number, that result
/// is the default country code followed by the digits after the zero.
pub proof fn law_one_trunk_zero_is_dropped(d: Seq<char>, cc: Seq<char>)
    requires
        d.len() > 0,
        all_digits(d),
        d[0] != '0',
        is_listed_code(trim(cc)),
    ensures
        normalize_spec(seq!['0'] + d, cc) == normalize_spec(d, cc),
        is_e164_spec(trim(cc) + d) ==> normalize_spec(seq!['0'] + d, cc) == Some(trim(cc) + d),
        !is_e164_spec(trim(cc) + d) ==> normalize_spec(seq!['0'] + d, cc) is None,
{
    let z = seq!['0'] + d;
    assert(all_digits(z)) by {
        assert forall|i: int| 0 <= i < z.len() implies #[trigger] is_digit(z[i]) by {
            if i > 0 {
                assert(z[i] == d[i - 1]);
            }
        }
    }
    lemma_digits_clean(z);
    lemma_digits_clean(d);
    assert(is_digit(d[0]));
    assert(!starts_with(z, seq!['0', '0'])) by {
        if starts_with(z, seq!['0', '0']) {
            assert(z.subrange(0, 2)[1] == z[1]);
        }
    }
    assert(!starts_with(d, seq!['0', '0'])) by {
        if starts_with(d, seq!['0', '0']) {
            assert(d.subrange(0, 2)[0] == d[0]);
        }
    }
    assert(z.drop_first() =~= d);
    let x = trim(cc) + d;
    if is_e164_spec(x) {
        if trim(cc).len() == 0 {
            assert(x =~= d);
            assert(is_digit(d[d.len() - 1]));
            lemma_trim_fixed(d);
            assert(false);
        } else {
            lemma_trim_first_not_ws(cc);
            assert(x[0] == trim(cc)[0]);
            assert(x.last() == d.last());
            assert(is_digit(d[d.len() - 1]));
            lemma_trim_fixed(x);
        }
    }
}

/// For an E.164 number, the gateway wire form is the digits after the `+`:
/// putting the `+` back gives the (trimmed) number again.
pub proof fn law_without_plus_round_trip(e: Seq<char>)
    requires
        is_e164_spec(e),
    ensures
        seq!['+'] + without_plus_spec(e) == trim(e),
        all_digits(without_plus_spec(e)),
        8 <= without_plus_spec(e).len() <= 15,
{
    let t = trim(e);
    assert(t.drop_first()[0] != '+') by {
        assert(is_digit(t.drop_first()[0]));
    }
    assert(trim_start_char(t.drop_first(), '+') == t.drop_first());
    assert(trim_start_char(t, '+') == t.drop_first());
    assert(seq!['+'] + t.drop_first() =~= t);
}

/// Whether `code` is, character for character, one of the listed codes.
pub fn is_listed(code: &str) -> (r: bool)
    ensures
        r == is_listed_code(code@),
{
    let mut i: usize = 0;
    while i < 202
        invariant
            i <= 202,
            COUNTRY_CODES@.len() == 202,
            forall|k: int| 0 <= k < i ==> (#[trigger] COUNTRY_CODES@[k]).0@ != code@,
        decreases 202 - i,
    {
        let entry = COUNTRY_CODES[i];
        if str_eq(entry.0, code) {
            return true;
        }
        i = i + 1;
    }
    false
}

/// Whether `code` (surrounding whitespace ignored) is a known country calling
/// code.
pub fn is_valid_country_code(code: &str) -> (r: bool)
    ensures
        r == valid_country_code(code@),
{
    is_listed(trim_str(code))
}

/// `s` with every separator removed.
fn strip_separators_str(s: &str) -> (r: String)
    ensures
        r@ == strip_separators(s@),
{
    let n = s.unicode_len();
    let mut r = String::new();
    let mut i: usize = 0;
    while i < n
        invariant
            i <= n,
            n == s@.len(),
            r@ == strip_separators(s@.subrange(0, i as int)),
        decreases n - i,
    {
        let c = s.get_char(i);
        assert(s@.subrange(0, i + 1).drop_last() =~= s@.subrange(0, i as int));
        if !(c == ' ' || c == '-' || c == '(' || c == ')' || c == '.' || c == '/' || c
            == '\u{a0}') {
            let one = s.substring_char(i, i + 1);
            assert(one@ =~= seq![c]);
            r.append(one);
        }
        i = i + 1;
    }
    assert(s@.subrange(0, n as int) =~= s@);
    r
}

/// Loose E.164 check: a leading `+` then 8 to 15 digits.
///
/// E.164 caps the total at 15 digits; the lower bound only rejects input that
/// is obviously not a number. The gateway remains the authority on validity.
pub fn is_e164(raw: &str) -> (r: bool)
    ensures
        r == is_e164_spec(raw@),
{
    let t = trim_str(raw);
    let n = t.unicode_len();
    if n == 0 || t.get_char(0) != '+' {
        return false;
    }
    let digits = t.substring_char(1, n);
    assert(digits@ =~= t@.drop_first());
    n - 1 >= 8 && n - 1 <= 15 && str_all_digits(digits)
}

/// Normalise a guest-entered number to E.164, using `default_country_code` for
/// numbers written in national form. Returns `None` when the result could not
/// possibly be a phone number, in which case the booking is rejected with a
/// validation error rather than silently losing the number.
///
/// * `+33612345678`, `+33 6 12 34 56 78` stay as they are.
/// * `0033612345678` becomes `+33612345678` (international prefix).
/// * `0612345678` becomes `+33612345678` (one trunk `0` dropped).
/// * `612345678` becomes `+33612345678` (countries with no trunk prefix).
pub fn normalize(raw: &str, default_country_code: &str) -> (r: Option<String>)
    ensures
        opt_view(r) == normalize_spec(raw@, default_country_code@),
        r matches Some(n) ==> is_e164_spec(n@) && n@ == trim(n@),
{
    let cleaned = strip_separators_str(trim_str(raw));
    let n = cleaned.as_str().unicode_len();
    if n == 0 {
        return None;
    }
    let country = trim_str(default_country_code);
    proof {
        reveal_strlit("00");
        reveal_strlit("+");
        assert("00"@ =~= seq!['0', '0']);
        assert("+"@ =~= seq!['+']);
    }
    let ghost cand = normalize_candidate(cleaned@, default_country_code@);
    let normalized = if str_starts_with(cleaned.as_str(), "00") {
        let rest = cleaned.as_str().substring_char(2, n);
        assert(rest@ =~= cleaned@.skip(2));
        let v = concat2("+", rest);
        assert(cand == Some(v@));
        v
    } else if cleaned.as_str().get_char(0) == '+' {
        cleaned
    } else {
        if !is_listed(country) {
            assert(cand is None);
            return None;
        }
        if cleaned.as_str().get_char(0) == '0' {
            let national = cleaned.as_str().substring_char(1, n);
            assert(national@ =~= cleaned@.drop_first());
            let v = concat2(country, national);
            assert(cand == Some(v@));
            v
        } else {
            let v = concat2(country, cleaned.as_str());
            assert(cand == Some(v@));
            v
        }
    };
    assert(cand == Some(normalized@));
    if is_e164(normalized.as_str()) {
        let n = String::from_str(trim_str(normalized.as_str()));
        proof {
            lemma_e164_trimmed(normalized@);
        }
        Some(n)
    } else {
        None
    }
}

/// E.164 without the leading `+`, the wire format GatewayAPI and seven.io
/// document for recipients.
pub fn without_plus(e164: &str) -> (r: String)
    ensures
        r@ == without_plus_spec(e164@),
{
    String::from_str(trim_start_char_str(trim_str(e164), '+'))
}

} // verus!
