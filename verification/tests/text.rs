//! Tests of the text primitives and of decimal numerals.

use gcodekit2::decimal::{truncate, Decimal};
use gcodekit2::text::{
    begins_with, char_is_space, char_upper, chars_of, decimal_of, find, has, joined, same, slice,
    split_lines, split_words, string_of, trimmed, trimmed_end, trimmed_start,
};

fn cs(s: &str) -> Vec<char> {
    s.chars().collect()
}

fn st(v: &Vec<char>) -> String {
    v.iter().collect()
}

#[test]
fn test_chars_and_strings() {
    assert_eq!(chars_of("a\u{e9}\u{1F600}"), vec!['a', '\u{e9}', '\u{1F600}']);
    assert_eq!(string_of(&vec!['a', 'b']), "ab");
    assert_eq!(string_of(&vec![]), "");
    assert_eq!(string_of(&chars_of("G1 X\u{e9}")), "G1 X\u{e9}");
    assert!(same(&cs("ab"), &cs("ab")));
    assert!(!same(&cs("ab"), &cs("ac")));
    assert!(!same(&cs("ab"), &cs("abc")));
    assert_eq!(slice(&cs("hello"), 1, 3), cs("el"));
    assert_eq!(char_upper('a'), 'A');
    assert_eq!(char_upper('z'), 'Z');
    assert_eq!(char_upper('A'), 'A');
    assert_eq!(char_upper('1'), '1');
    assert_eq!(char_upper('\u{e9}'), '\u{e9}');
}

#[test]
fn test_white_space_is_that_of_the_standard_library() {
    for u in 0..0x11000u32 {
        if let Some(c) = char::from_u32(u) {
            assert_eq!(char_is_space(c), c.is_whitespace(), "{:x}", u);
        }
    }
}

#[test]
fn test_trimming_is_that_of_the_standard_library() {
    for s in ["", " ", "a", "  a b  ", "\t\n a\r\n", "\u{3000}x\u{a0}", "   ", "a  ", "  a"] {
        assert_eq!(st(&trimmed(&cs(s))), s.trim(), "{:?}", s);
        assert_eq!(st(&trimmed_start(&cs(s))), s.trim_start(), "{:?}", s);
        assert_eq!(st(&trimmed_end(&cs(s))), s.trim_end(), "{:?}", s);
    }
}

#[test]
fn test_lines_are_those_of_the_standard_library() {
    for s in [
        "", "\n", "a", "a\n", "a\nb", "a\n\nb\n", "a\r\nb\r\n", "a\rb\n", "a\r", "\r\n", "\n\n",
        "a\r\r\nb", "\r", "x\n\r\ny",
    ] {
        let ours: Vec<String> = split_lines(&cs(s)).iter().map(st).collect();
        let theirs: Vec<String> = s.lines().map(|l| l.to_string()).collect();
        assert_eq!(ours, theirs, "{:?}", s);
    }
}

#[test]
fn test_words_are_those_of_the_standard_library() {
    for s in ["", " ", "a", " a  b ", "a\tb\nc", "\u{3000}x\u{a0}y", "ab", "  ab"] {
        let ours: Vec<String> = split_words(&cs(s)).iter().map(st).collect();
        let theirs: Vec<String> = s.split_whitespace().map(|l| l.to_string()).collect();
        assert_eq!(ours, theirs, "{:?}", s);
    }
}

#[test]
fn test_joining() {
    let parts = vec![cs("a"), cs(""), cs("bc")];
    assert_eq!(st(&joined(&parts, &cs(", "))), "a, , bc");
    assert_eq!(st(&joined(&vec![cs("a")], &cs("-"))), "a");
    assert_eq!(st(&joined(&vec![], &cs("-"))), "");
}

#[test]
fn test_searching() {
    assert_eq!(find(&cs("abcabc"), &cs("bc")), Some(1));
    assert_eq!(find(&cs("abcabc"), &cs("")), Some(0));
    assert_eq!(find(&cs(""), &cs("")), Some(0));
    assert_eq!(find(&cs("abc"), &cs("abc")), Some(0));
    assert_eq!(find(&cs("abc"), &cs("c")), Some(2));
    assert_eq!(find(&cs("abc"), &cs("abcd")), None);
    assert_eq!(find(&cs("abc"), &cs("d")), None);
    assert!(has(&cs("G1 X2"), "G1"));
    assert!(!has(&cs("G1 X2"), "G2"));
    assert!(begins_with(&cs("COM1"), "COM"));
    assert!(!begins_with(&cs("CO"), "COM"));
    assert!(!begins_with(&cs("xCOM"), "COM"));
}

#[test]
fn test_decimal_numerals_of_integers() {
    for n in [0u128, 1, 9, 10, 11, 99, 100, 12345, u64::MAX as u128, u128::MAX] {
        assert_eq!(st(&decimal_of(n)), n.to_string());
    }
}

#[test]
fn test_reading_numbers() {
    for s in ["0", "5", "5.", ".5", "-5", "-.5", "-5.", "007", "1.50", "-0", "0.0"] {
        assert!(Decimal::parse(&cs(s)).is_some(), "{:?}", s);
        assert!(s.parse::<f64>().is_ok(), "{:?}", s);
    }
    for s in ["", "-", ".", "-.", "--5", "5-", "1.2.3", "1-2", ".-5", "5..", "-5-"] {
        assert!(Decimal::parse(&cs(s)).is_none(), "{:?}", s);
        assert!(s.parse::<f64>().is_err(), "{:?}", s);
    }
    let d = Decimal::parse(&cs("-012.340")).unwrap();
    assert!(d.negative);
    assert_eq!(d.whole, cs("012"));
    assert_eq!(d.fraction, cs("340"));
    assert_eq!(st(&d.render()), "-12.34");
    assert_eq!(st(&d.cut(1).render()), "-12.3");
    assert_eq!(st(&d.cut(0).render()), "-12");
    assert_eq!(st(&d.cut(9).render()), "-12.34");
    assert!(d.below_zero());
    assert!(!d.above_zero());
    assert!(!d.is_zero());
    assert_eq!(d.whole_value(), 12);
    assert!(!d.exceeds(0));
}

#[test]
fn test_comparing_numbers() {
    let n = |s: &str| Decimal::parse(&cs(s)).unwrap();
    assert!(n("20001").exceeds(20000));
    assert!(n("20000.0001").exceeds(20000));
    assert!(!n("20000.0000").exceeds(20000));
    assert!(!n("20000").exceeds(20000));
    assert!(!n("19999.999").exceeds(20000));
    assert!(!n("-30000").exceeds(20000));
    assert!(n("00020001").exceeds(20000));
    assert!(n("99999999999999999999999999999").exceeds(u32::MAX));
    assert!(n("4294967296").exceeds(u32::MAX));
    assert!(!n("4294967295").exceeds(u32::MAX));
    assert!(n("0.1").exceeds(0));
    assert!(!n("0.0").exceeds(0));
    assert_eq!(n("99999999999999999999").whole_value(), 1_000_000_000_000);
    assert_eq!(n("999999999999").whole_value(), 999_999_999_999);
    assert!(n("0").is_zero() && n("-0.000").is_zero() && n(".0").is_zero());
    assert!(!n("-0").below_zero() && !n("-0").above_zero());
    assert!(n("-0.001").below_zero());
    assert!(n("0.001").above_zero());
}

#[test]
fn test_truncating_tokens() {
    let t = |s: &str, p: usize| st(&truncate(&cs(s), p));
    assert_eq!(t("10.999", 2), "10.99");
    assert_eq!(t("10.999", 0), "10");
    assert_eq!(t("10.999", 3), "10.999");
    assert_eq!(t("10.999", 6), "10.999");
    assert_eq!(t("10.100", 2), "10.1");
    assert_eq!(t("-0.009", 2), "-0");
    assert_eq!(t("abc", 2), "abc");
    assert_eq!(t("1.2.3", 2), "1.2.3");
    assert_eq!(t("", 2), "");
    for s in ["10.999", "-3.14159", "0.5", "7", "-.25", "100.", "0.001", "12.340"] {
        for p in 0..7 {
            let once = t(s, p);
            assert_eq!(t(&once, p), once, "{:?} {}", s, p);
        }
    }
}
