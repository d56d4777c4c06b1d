use protest::decimal::{parse_fixed, Fixed};
use protest::text::{format_i64, parse_i64, str_eq};

fn units(s: &str) -> Option<u64> {
    parse_fixed(s).map(|f| f.units)
}

#[test]
fn fixed_reads_plain_decimals() {
    assert_eq!(units("0.6123"), Some(612_300_000));
    assert_eq!(units("140"), Some(140_000_000_000));
    assert_eq!(units("14"), Some(14_000_000_000));
    assert_eq!(units(".5"), Some(500_000_000));
    assert_eq!(units("5."), Some(5_000_000_000));
    assert_eq!(units("0"), Some(0));
    assert_eq!(units("000123.4500"), Some(123_450_000_000));
}

#[test]
fn fixed_drops_digits_past_the_ninth_place() {
    assert_eq!(units("11.7303226589447477"), Some(11_730_322_658));
    assert_eq!(units("0.0000000019"), Some(1));
    assert_eq!(units("0.123456789"), Some(123_456_789));
}

#[test]
fn fixed_refuses_other_text() {
    for bad in [
        "", ".", " 1", "1 ", "1.2.3", "abc", "NaN", "inf", "infinity", "1,5", "٣", "1e", "e5", "1e+",
        "1e5.0", ".e5", "+", "-", "1e1e1", "++1", "1_000",
    ] {
        assert_eq!(parse_fixed(bad), None, "{bad:?}");
    }
}

#[test]
fn fixed_range_edges() {
    assert_eq!(units("18446744073.709551615"), Some(u64::MAX));
    assert_eq!(units("18446744073.709551616"), None);
    assert_eq!(units("18446744074"), None);
    assert_eq!(units("99999999999999999999999999"), None);
    assert_eq!(units("00000000000000000000000001"), Some(1_000_000_000));
}

#[test]
fn i64_reads_like_str_parse() {
    for s in ["0", "1700000000123", "-5", "+42", "9223372036854775807", "-9223372036854775808", "007"] {
        assert_eq!(parse_i64(s), s.parse::<i64>().ok(), "{s:?}");
    }
    for s in ["", "-", "+", "9223372036854775808", "-9223372036854775809", "1.0", " 1", "--1", "x"] {
        assert_eq!(parse_i64(s), None, "{s:?}");
        assert!(s.parse::<i64>().is_err());
    }
}

#[test]
fn i64_writes_like_to_string_and_reads_back() {
    for x in [0i64, 7, 10, 1_700_000_000, -1, -10, i64::MAX, i64::MIN, 1_700_000_005_000] {
        let s = format_i64(x);
        assert_eq!(s, x.to_string());
        assert_eq!(parse_i64(&s), Some(x));
    }
}

#[test]
fn strings_compare_by_characters() {
    assert!(str_eq("buy", "buy"));
    assert!(!str_eq("buy", "Buy"));
    assert!(!str_eq("buy", "buyer"));
    assert!(str_eq("", ""));
    assert!(str_eq("价差", "价差"));
}

#[test]
fn fixed_reads_signs_and_exponents() {
    assert_eq!(units("+1"), Some(1_000_000_000));
    assert_eq!(parse_fixed("-0"), Some(Fixed { negative: true, units: 0 }));
    assert_eq!(parse_fixed("0"), Some(Fixed { negative: false, units: 0 }));
    assert_eq!(units("-0.000e7"), Some(0));
    assert_eq!(units("1e5"), Some(100_000_000_000_000));
    assert_eq!(units("1e1"), Some(10_000_000_000));
    assert_eq!(units("1E+1"), Some(10_000_000_000));
    assert_eq!(units("1e-3"), Some(1_000_000));
    assert_eq!(units("2.5E-3"), Some(2_500_000));
    assert_eq!(units("25e-4"), Some(2_500_000));
    assert_eq!(units("1.e2"), Some(100_000_000_000));
    assert_eq!(units(".5e1"), Some(5_000_000_000));
    assert_eq!(units("1e-10"), Some(0));
    assert_eq!(units("1e-99999999999999999999999"), Some(0));
    assert_eq!(units("0e99999999999999999999999"), Some(0));
    assert_eq!(units("1e400"), None);
    assert_eq!(units("1.8446744073709551615e10"), Some(u64::MAX));
    assert_eq!(units("1.8446744073709551616e10"), None);
    assert_eq!(units("18446744073709551615e-9"), Some(u64::MAX));
}

#[test]
fn fixed_keeps_the_sign() {
    assert_eq!(parse_fixed("-1"), Some(Fixed { negative: true, units: 1_000_000_000 }));
    assert_eq!(parse_fixed("-0.5"), Some(Fixed { negative: true, units: 500_000_000 }));
    assert_eq!(parse_fixed("-2.5e-3"), Some(Fixed { negative: true, units: 2_500_000 }));
    // truncated toward zero, the sign stays
    assert_eq!(parse_fixed("-1e-10"), Some(Fixed { negative: true, units: 0 }));
    assert_eq!(parse_fixed("-18446744073.709551615"), Some(Fixed { negative: true, units: u64::MAX }));
    assert_eq!(parse_fixed("-18446744073.709551616"), None);
    assert_eq!(parse_fixed("-inf"), None);
}
