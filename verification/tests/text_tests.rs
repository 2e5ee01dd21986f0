use chess_coach::text::{
    append_decimal, chars_of, is_whitespace, slice_of, split_words, starts_with, string_of, trim,
    trim_trailing,
};

fn v(s: &str) -> Vec<char> {
    s.chars().collect()
}

#[test]
fn chars_and_strings_round_trip() {
    assert_eq!(chars_of("a\u{e9}\u{2014}z"), vec!['a', '\u{e9}', '\u{2014}', 'z']);
    assert_eq!(string_of(&v("Gr\u{fc}nfeld")), "Gr\u{fc}nfeld");
    assert_eq!(chars_of(""), Vec::<char>::new());
}

#[test]
fn white_space_is_unicode_white_space() {
    for c in ['\t', '\n', '\u{b}', '\u{c}', '\r', ' ', '\u{85}', '\u{a0}', '\u{1680}', '\u{2000}',
        '\u{200a}', '\u{2028}', '\u{2029}', '\u{202f}', '\u{205f}', '\u{3000}']
    {
        assert!(is_whitespace(c));
        assert!(c.is_whitespace());
    }
    for c in ['a', '0', '\u{200b}', '\u{1c}', '\u{8}', '\u{e}', '\u{180e}', '\u{feff}'] {
        assert!(!is_whitespace(c));
        assert!(!c.is_whitespace());
    }
}

#[test]
fn white_space_agrees_with_std_on_every_char() {
    let mut n: u32 = 0;
    while n <= 0x10FFFF {
        if let Some(c) = char::from_u32(n) {
            assert_eq!(is_whitespace(c), c.is_whitespace());
        }
        n += 1;
    }
}

#[test]
fn trim_drops_white_space_at_both_ends() {
    assert_eq!(trim(&v("  \t e4 e5 \r\n")), v("e4 e5"));
    assert_eq!(trim(&v("e4")), v("e4"));
    assert_eq!(trim(&v(" \n\t ")), v(""));
    assert_eq!(trim(&v("")), v(""));
    assert_eq!(trim(&v("\u{a0}x\u{3000}")), v("x"));
}

#[test]
fn trim_trailing_drops_the_whole_run() {
    assert_eq!(trim_trailing(&v("Qh5++"), '+'), v("Qh5"));
    assert_eq!(trim_trailing(&v("Qh5#"), '+'), v("Qh5#"));
    assert_eq!(trim_trailing(&v("+++"), '+'), v(""));
    assert_eq!(trim_trailing(&v("+a"), '+'), v("+a"));
}

#[test]
fn split_words_cuts_at_white_space() {
    assert_eq!(split_words(&v("1. e4  e5\n2.\tNf3 ")), vec![v("1."), v("e4"), v("e5"), v("2."), v("Nf3")]);
    assert_eq!(split_words(&v("")), Vec::<Vec<char>>::new());
    assert_eq!(split_words(&v("   ")), Vec::<Vec<char>>::new());
    assert_eq!(split_words(&v("one")), vec![v("one")]);
}

#[test]
fn slice_and_prefix() {
    assert_eq!(slice_of(&v("abcdef"), 2, 4), v("cd"));
    assert_eq!(slice_of(&v("abcdef"), 3, 3), v(""));
    assert!(starts_with(&v("[Date \"x\"]"), "[Date "));
    assert!(!starts_with(&v("[Dat"), "[Date "));
    assert!(starts_with(&v("abc"), ""));
}

#[test]
fn decimal_numbers() {
    for (n, text) in [(0u64, "0"), (7, "7"), (10, "10"), (109, "109"), (4294967295, "4294967295"), (u64::MAX, "18446744073709551615")] {
        let mut out = v("n=");
        append_decimal(&mut out, n);
        assert_eq!(string_of(&out), format!("n={}", text));
    }
}
