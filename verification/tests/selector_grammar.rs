//! The selection grammar: wildcard defaulting, exact parses, malformed
//! segments, and canonical-form round-trips on concrete selectors.

use advent::selector::{Selection, SelectorError, DP, YDP};

#[test]
fn test_parse_empty_is_all_wildcards() {
    let ydp = YDP::parse("").unwrap();
    assert_eq!(ydp.year, Selection::All);
    assert_eq!(ydp.day, Selection::All);
    assert_eq!(ydp.part, Selection::All);
}

#[test]
fn test_parse_year_only_defaults_rest() {
    let ydp = YDP::parse("2024").unwrap();
    assert_eq!(ydp.year, Selection::Single(2024));
    assert_eq!(ydp.day, Selection::All);
    assert_eq!(ydp.part, Selection::All);
}

#[test]
fn test_parse_year_day_defaults_part() {
    let ydp = YDP::parse("2024:5").unwrap();
    assert_eq!(ydp.year, Selection::Single(2024));
    assert_eq!(ydp.day, Selection::Single(5));
    assert_eq!(ydp.part, Selection::All);
}

#[test]
fn test_parse_full_selector() {
    let ydp = YDP::parse("2024:2:1").unwrap();
    assert_eq!(ydp.year, Selection::Single(2024));
    assert_eq!(ydp.day, Selection::Single(2));
    assert_eq!(ydp.part, Selection::Single(1));
}

#[test]
fn test_parse_wildcard_tokens() {
    let ydp = YDP::parse("*:3:*").unwrap();
    assert_eq!(ydp.year, Selection::All);
    assert_eq!(ydp.day, Selection::Single(3));
    assert_eq!(ydp.part, Selection::All);
}

#[test]
fn test_parse_malformed_segment() {
    assert_eq!(
        YDP::parse("20x4"),
        Err(SelectorError::MalformedSelector)
    );
    assert_eq!(
        YDP::parse("2024:abc"),
        Err(SelectorError::MalformedSelector)
    );
    assert_eq!(
        YDP::parse("2024:"),
        Err(SelectorError::MalformedSelector)
    );
}

#[test]
fn test_parse_dp() {
    let dp = DP::parse("5:2").unwrap();
    assert_eq!(dp.day, Selection::Single(5));
    assert_eq!(dp.part, Selection::Single(2));
    let dp = DP::parse("7").unwrap();
    assert_eq!(dp.day, Selection::Single(7));
    assert_eq!(dp.part, Selection::All);
    let dp = DP::parse("").unwrap();
    assert_eq!(dp.day, Selection::All);
    assert_eq!(dp.part, Selection::All);
}

#[test]
fn test_to_dp_drops_year() {
    let ydp = YDP::parse("2024:2:1").unwrap();
    let dp = ydp.to_dp();
    assert_eq!(dp.day, Selection::Single(2));
    assert_eq!(dp.part, Selection::Single(1));
}

#[test]
fn test_canonical_string() {
    let ydp = YDP::parse("2024:5").unwrap();
    assert_eq!(ydp.to_selector_string(), "2024:5:*");
    let ydp = YDP::parse("").unwrap();
    assert_eq!(ydp.to_selector_string(), "*:*:*");
    let dp = DP::parse("5:2").unwrap();
    assert_eq!(dp.to_selector_string(), "5:2");
}

#[test]
fn test_round_trip_reparses_to_same_selector() {
    for s in ["", "2024", "2024:5", "2024:2:1", "*", "*:3", "*:*:2"] {
        let parsed = YDP::parse(s).unwrap();
        let canon = parsed.to_selector_string();
        let reparsed = YDP::parse(&canon).unwrap();
        assert_eq!(parsed, reparsed);
        assert_eq!(reparsed.to_selector_string(), canon);
    }
}

#[test]
fn test_segment_parse() {
    assert_eq!(Selection::parse("*"), Ok(Selection::All));
    assert_eq!(Selection::parse("42"), Ok(Selection::Single(42)));
    assert_eq!(Selection::parse(""), Err(SelectorError::MalformedSelector));
    assert_eq!(Selection::parse("-1"), Err(SelectorError::MalformedSelector));
    assert_eq!(
        Selection::parse("99999999999999999999999999"),
        Err(SelectorError::MalformedSelector)
    );
}
