use tclac::clock::{self, SinceEpoch};
use tclac::device;
use tclac::double;
use tclac::text;

fn samples() -> Vec<f64> {
    let mut v = vec![
        0.0, -0.0, 0.5, -0.5, 1.5, 2.5, -2.5, 0.05, 0.15, 0.25, 0.35, 0.45, 21.95, 22.04, 22.05,
        22.06, 24.0, -3.26, 99.95, 99.949, 1e15, 1e16, 9007199254740993.0, 1e19, -1e19, 1e300,
        -1e300, 5e-324, 1e-10, 0.1, 0.125, 0.375, 123456.789, 4.35, 2.675, 1.005,
        f64::MAX, f64::MIN_POSITIVE, f64::INFINITY, f64::NEG_INFINITY,
    ];
    let mut x = -40.0;
    while x < 60.0 {
        v.push(x);
        x += 0.37;
    }
    v
}

#[test]
fn fixed_prints_like_format() {
    for x in samples() {
        assert_eq!(double::fixed(x.to_bits(), 0), format!("{x:.0}"));
        assert_eq!(double::fixed(x.to_bits(), 1), format!("{x:.1}"));
        assert_eq!(double::fixed(x.to_bits(), 2), format!("{x:.2}"));
    }
    assert_eq!(double::fixed(f64::NAN.to_bits(), 1), "NaN");
}

#[test]
fn rounding_and_truncation_match() {
    for x in samples() {
        assert_eq!(double::rounded(x.to_bits()), x.round() as i64);
        assert_eq!(double::truncated(x.to_bits()), x as i64);
        assert_eq!(double::truncated_unsigned(x.to_bits()), x as u64);
    }
    assert_eq!(double::rounded(f64::NAN.to_bits()), 0);
}

#[test]
fn near_whole_matches() {
    for x in samples() {
        let near = (x.round() - x).abs() < 0.05;
        assert_eq!(double::is_near_whole(x.to_bits()), near, "{x}");
    }
    assert!(!double::is_near_whole(f64::NAN.to_bits()));
}

#[test]
fn doubles_compare_as_numbers() {
    assert!(double::are_equal(0.0f64.to_bits(), (-0.0f64).to_bits()));
    assert!(!double::are_equal(f64::NAN.to_bits(), f64::NAN.to_bits()));
    assert!(double::are_equal(1.5f64.to_bits(), 1.5f64.to_bits()));
    assert!(!double::are_equal(1.5f64.to_bits(), 1.25f64.to_bits()));
}

#[test]
fn extremes_of_a_history() {
    let v: Vec<u64> = [21.5f64, -3.0, 40.25, 0.0].iter().map(|x| x.to_bits()).collect();
    let (lo, hi) = double::extremes(&v);
    assert_eq!(f64::from_bits(lo), -3.0);
    assert_eq!(f64::from_bits(hi), 40.25);
    let w: Vec<u64> = [f64::NAN, 2.0, 1.0].iter().map(|x| x.to_bits()).collect();
    let (lo, hi) = double::extremes(&w);
    assert_eq!(f64::from_bits(lo), 1.0);
    assert_eq!(f64::from_bits(hi), 2.0);
}

#[test]
fn fahrenheit_matches_double_arithmetic() {
    let mut cs: Vec<i64> = (-200..200).collect();
    cs.push(i64::MAX);
    cs.push(i64::MIN);
    cs.push(1 << 40);
    cs.push((1 << 60) + 12345);
    for c in cs {
        assert_eq!(device::fahrenheit(c), (c as f64 * 9.0 / 5.0 + 32.0).round() as i64, "{c}");
    }
    assert_eq!(device::fahrenheit(24), 75);
    assert_eq!(device::fahrenheit(16), 61);
}

#[test]
fn fahrenheit_is_the_nearest_degree() {
    for c in -1000i64..1000 {
        assert_eq!(device::fahrenheit(c), (18 * c + 325).div_euclid(10));
    }
}

#[test]
fn power_is_printed_like_format() {
    for w in [0i64, 45, 770, 999, 1000, 1049, 1050, 1051, 1095, 1250, 2645, 123456789, i64::MAX] {
        let expected = if w >= 1000 {
            format!("{:.1} kW", w as f64 / 1000.0)
        } else {
            format!("{w} W")
        };
        assert_eq!(device::fmt_power(w), expected);
    }
    assert_eq!(device::fmt_power(770), "770 W");
    assert_eq!(device::fmt_power(1100), "1.1 kW");
    assert_eq!(device::fmt_power(-5), "-5 W");
}

#[test]
fn decimal_numbers_read_back() {
    for n in [0i64, 7, -7, 10, 99, -100, i64::MAX, i64::MIN] {
        assert_eq!(text::dec_i64(n), n.to_string());
        assert_eq!(text::parse_i64(&text::dec_i64(n)), Some(n));
    }
    for s in ["", "+", "-", "+5", "-0", "007", "9223372036854775808", "-9223372036854775809", "1x"] {
        assert_eq!(text::parse_i64(s), s.parse::<i64>().ok(), "{s}");
    }
    for s in ["255", "256", "+3", "-3", "", "12a"] {
        assert_eq!(text::parse_unsigned(s, 255), s.parse::<u8>().ok().map(|n| n as u64), "{s}");
    }
}

#[test]
fn text_helpers() {
    assert_eq!(text::trim(" \t\u{2003}a b\n"), "a b");
    assert_eq!(text::strip_line_end("ab\r\n\n"), "ab");
    assert_eq!(text::strip_end("https://x//", '/'), "https://x");
    assert_eq!(text::strip_start("geargear3", "gear"), "3");
    assert_eq!(text::take_before("a:b:c", ':'), "a");
    assert_eq!(text::take_after("a:b:c", ':'), Some("b:c".to_string()));
    assert_eq!(text::take_after("abc", ':'), None);
    assert_eq!(text::undash("mid-left_x"), "midleftx");
    assert_eq!(text::ascii_lower("ÄbC-1"), "Äbc-1");
    assert_eq!(text::pad_right("Dry", 5), "Dry  ");
    assert_eq!(text::pad_left("7", 3), "  7");
    assert_eq!(text::pad_left("1234", 3), "1234");
    assert!(text::contains("abcabd", "abd"));
    assert!(!text::contains("abcab", "abd"));
    assert!(text::contains("", ""));
    assert!(text::starts_with("Refreshing…", "Refreshing"));
}

#[test]
fn messages_are_cut_at_the_limit() {
    assert_eq!(text::shorten("abcdef", 6), "abcdef");
    assert_eq!(text::shorten("abcdef", 4), "abcd…");
    assert_eq!(text::shorten("aéb", 3), "aé…");
    assert_eq!(text::shorten("aéb", 2), "a…");
    assert_eq!(text::shorten("😀", 3), "…");
    assert_eq!(text::shorten("😀", 4), "😀");
    assert_eq!(text::clip("äöü", 2), "äö…");
    assert_eq!(text::clip("äöü", 3), "äöü");
}

#[test]
fn clock_readings_are_counted() {
    let t = SinceEpoch { secs: 1_700_000_000, nanos: 123_999_999 };
    assert_eq!(clock::millis_at(Some(t)), 1_700_000_000_123);
    assert_eq!(clock::seconds_at(Some(t)), 1_700_000_000);
    assert_eq!(clock::millis_at(None), 0);
    assert_eq!(clock::seconds_at(None), 0);
    let last = SinceEpoch { secs: u64::MAX, nanos: 999_999_999 };
    assert_eq!(clock::millis_at(Some(last)), u64::MAX as u128 * 1000 + 999);
}

#[test]
fn white_space_is_that_of_unicode() {
    for n in 0..=0x10_FFFFu32 {
        if let Some(c) = char::from_u32(n) {
            assert_eq!(text::space(c), c.is_whitespace(), "{n:x}");
        }
    }
}
