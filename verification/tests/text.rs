use slope_a_dope::rat::Rat;
use slope_a_dope::text::{format_hundredths, parse_decimal};

fn parse(s: &str) -> Option<Rat> {
    let chars: Vec<char> = s.chars().collect();
    parse_decimal(&chars)
}

#[test]
fn parse_integers() {
    assert!(parse("42").unwrap().eq_val(&Rat::from_int(42)));
    assert!(parse("0").unwrap().eq_val(&Rat::from_int(0)));
    assert!(parse("-17").unwrap().eq_val(&Rat::from_int(-17)));
    assert!(parse("+8").unwrap().eq_val(&Rat::from_int(8)));
    assert!(parse("007").unwrap().eq_val(&Rat::from_int(7)));
}

#[test]
fn parse_fractions() {
    assert!(parse("-3.5").unwrap().eq_val(&Rat::new(-7, 2)));
    assert!(parse("+0.25").unwrap().eq_val(&Rat::new(1, 4)));
    assert!(parse("2.5").unwrap().eq_val(&Rat::new(5, 2)));
    // A trailing or leading dot still reads as a number.
    assert!(parse("1.").unwrap().eq_val(&Rat::from_int(1)));
    assert!(parse(".5").unwrap().eq_val(&Rat::new(1, 2)));
    assert!(parse("12.034").unwrap().eq_val(&Rat::new(12034, 1000)));
}

#[test]
fn parse_rejects_bad_drafts() {
    assert!(parse("").is_none());
    assert!(parse("-").is_none());
    assert!(parse("+").is_none());
    assert!(parse(".").is_none());
    assert!(parse("12a").is_none());
    assert!(parse("1.2.3").is_none());
    assert!(parse("1 2").is_none());
    assert!(parse("--5").is_none());
    assert!(parse("5-").is_none());
}

#[test]
fn parse_range_limits() {
    assert!(parse("9223372036854775807")
        .unwrap()
        .eq_val(&Rat::from_int(i64::MAX)));
    // One past the largest representable magnitude is rejected ...
    assert!(parse("9223372036854775808").is_none());
    // ... and so is a fraction whose exact denominator cannot be held.
    assert!(parse("0.0000000000000000001").is_none());
    assert!(parse("0.000000000000000001")
        .unwrap()
        .eq_val(&Rat::new(1, 1_000_000_000_000_000_000)));
}

#[test]
fn format_drops_trailing_zeros() {
    assert_eq!("0", format_hundredths(0).as_str());
    assert_eq!("12", format_hundredths(1200).as_str());
    assert_eq!("-5", format_hundredths(-500).as_str());
    assert_eq!("3.75", format_hundredths(375).as_str());
    assert_eq!("7.5", format_hundredths(750).as_str());
    assert_eq!("-11.25", format_hundredths(-1125).as_str());
    assert_eq!("0.05", format_hundredths(5).as_str());
}
