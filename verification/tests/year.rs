use tag_normalizer::metadata::RawTag;
use tag_normalizer::metadata::StandardKey;
use tag_normalizer::normalize::normalize;
use tag_normalizer::year::lookup_vendor;
use tag_normalizer::year::parse_year;
use tag_normalizer::year::resolve_year;
use tag_normalizer::year::year_from_tags;

fn vendor_tag(key: &str, value: &str) -> RawTag {
    RawTag { std_key: None, vendor_key: Some(key.to_string()), value: value.to_string() }
}

#[test]
fn year_field_alone_sets_year() {
    let tags = vec![vendor_tag("YEAR", "2021")];
    assert_eq!(year_from_tags(&tags), 2021);
    assert_eq!(normalize(&tags).year, 2021);
}

#[test]
fn ten_character_date_is_truncated() {
    let tags = vec![vendor_tag("YEAR", ""), vendor_tag("DATE", "1999-05-01")];
    assert_eq!(year_from_tags(&tags), 1999);
    assert_eq!(normalize(&tags).year, 1999);
}

#[test]
fn short_year_falls_through_to_original_year() {
    let tags = vec![
        vendor_tag("YEAR", "99"),
        vendor_tag("DATE", ""),
        vendor_tag("ORIGINALYEAR", "1987"),
    ];
    assert_eq!(year_from_tags(&tags), 1987);
    assert_eq!(normalize(&tags).year, 1987);
}

#[test]
fn all_candidates_short_or_absent_give_zero() {
    let absent: Vec<RawTag> = Vec::new();
    assert_eq!(year_from_tags(&absent), 0);

    let short = vec![
        vendor_tag("YEAR", "99"),
        vendor_tag("DATE", "1-1"),
        vendor_tag("ORIGINALYEAR", "987"),
    ];
    assert_eq!(year_from_tags(&short), 0);
}

#[test]
fn non_numeric_candidate_gives_zero_not_error() {
    assert_eq!(parse_year("abcd"), 0);
    let tags = vec![vendor_tag("YEAR", "abcd")];
    assert_eq!(year_from_tags(&tags), 0);
}

#[test]
fn parse_year_exact_values() {
    assert_eq!(parse_year("2021"), 2021);
    assert_eq!(parse_year("1999-05-01"), 1999);
    assert_eq!(parse_year("0042"), 42);
    assert_eq!(parse_year("10000"), 10000);
}

#[test]
fn parse_year_truncates_by_width_not_shape() {
    // Any ten-character candidate loses all but its first four characters.
    assert_eq!(parse_year("1234567890"), 1234);
    assert_eq!(parse_year("4294967296"), 4294);
}

#[test]
fn parse_year_overflow_gives_zero() {
    // Eleven digits: nothing is truncated and the value cannot fit.
    assert_eq!(parse_year("99999999999"), 0);
}

#[test]
fn parse_year_sign_characters_are_not_digits() {
    assert_eq!(parse_year("+123"), 0);
    assert_eq!(parse_year("-123"), 0);
}

#[test]
fn candidate_length_counts_characters_not_bytes() {
    // Three characters, nine bytes: too short to qualify.
    let tags = vec![vendor_tag("YEAR", "音楽年"), vendor_tag("DATE", "1955")];
    assert_eq!(year_from_tags(&tags), 1955);
    // Four characters qualify but do not parse.
    assert_eq!(parse_year("199é"), 0);
}

#[test]
fn year_priority_ignores_lower_candidates() {
    let tags = vec![
        vendor_tag("ORIGINALYEAR", "1987"),
        vendor_tag("DATE", "1999-05-01"),
        vendor_tag("YEAR", "2021"),
    ];
    assert_eq!(year_from_tags(&tags), 2021);
}

#[test]
fn lookup_takes_first_occurrence() {
    let tags = vec![vendor_tag("YEAR", "2021"), vendor_tag("YEAR", "1900")];
    assert_eq!(lookup_vendor(&tags, "YEAR"), "2021");
    assert_eq!(year_from_tags(&tags), 2021);
}

#[test]
fn lookup_is_case_sensitive_and_exact() {
    let tags = vec![vendor_tag("year", "2021"), vendor_tag("YEARS", "2020")];
    assert_eq!(lookup_vendor(&tags, "YEAR"), "");
    assert_eq!(year_from_tags(&tags), 0);
}

#[test]
fn resolve_year_exact_values() {
    assert_eq!(resolve_year("2021", "", ""), 2021);
    assert_eq!(resolve_year("", "1999-05-01", ""), 1999);
    assert_eq!(resolve_year("99", "", "1987"), 1987);
    assert_eq!(resolve_year("", "", ""), 0);
}

#[test]
fn standard_date_key_does_not_feed_the_heuristic() {
    // The heuristic reads the raw vendor keys only; a recognized Date role
    // with some other raw key contributes nothing.
    let tags = vec![RawTag {
        std_key: Some(StandardKey::Date),
        vendor_key: Some("RELEASED".to_string()),
        value: "2003-07-15".to_string(),
    }];
    assert_eq!(year_from_tags(&tags), 0);
}
