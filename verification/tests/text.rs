use musicboxd::text::{
    chars_of, is_alphanumeric, is_blank, is_white, join, parse_unsigned, prefix_of_bytes,
    to_ascii_lower, to_decimal, to_lowercase, to_signed_decimal, to_uppercase, trim_bounds,
    utf8_len, words_of,
};

fn every_char() -> impl Iterator<Item = char> {
    (0..=0x10FFFFu32).filter_map(char::from_u32)
}

#[test]
fn whitespace_is_what_unicode_calls_so() {
    for c in every_char() {
        assert_eq!(is_white(c), c.is_whitespace(), "{:?}", c);
    }
}

#[test]
fn letters_and_numbers_are_what_unicode_calls_so() {
    for c in every_char() {
        assert_eq!(is_alphanumeric(c), c.is_alphanumeric(), "{:?}", c);
    }
}

#[test]
fn upper_case_is_that_of_unicode() {
    for c in every_char() {
        assert_eq!(to_uppercase(c), c.to_uppercase().to_string(), "{:?}", c);
    }
    assert_eq!(to_uppercase('ß'), "SS");
    assert_eq!(to_uppercase('z'), "Z");
}

#[test]
fn lower_case_is_that_of_unicode() {
    for s in ["", "ABC xyz 019", "ÀÉÎ", "ὈΔΥΣΣΕΎΣ", "İstanbul", "Straße"] {
        assert_eq!(to_lowercase(s), s.to_lowercase());
    }
    assert_eq!(to_ascii_lower('Q'), 'q');
    assert_eq!(to_ascii_lower('É'), 'É');
}

#[test]
fn trimming_takes_whitespace_off_both_ends() {
    for s in ["", " ", "a", " a", "a ", "\t a b \u{3000}", "\u{a0}x\u{a0}"] {
        let chars = chars_of(s);
        let n = chars.len();
        let (from, to) = trim_bounds(&chars, 0, n);
        assert_eq!(chars[from..to].iter().collect::<String>(), s.trim());
        assert_eq!(is_blank(s), s.trim().is_empty());
    }
}

#[test]
fn words_are_split_at_whitespace() {
    for s in ["", "  ", "one", " one  two\tthree\n", "a\u{2003}b", "dark side"] {
        let words = words_of(&chars_of(s));
        assert_eq!(words, s.split_whitespace().collect::<Vec<_>>());
    }
}

#[test]
fn words_joined_by_spaces_split_again() {
    let words = vec!["of".to_string(), "the".to_string(), "moon".to_string()];
    let text = join(&words, " ");
    assert_eq!(text, "of the moon");
    assert_eq!(words_of(&chars_of(&text)), words);
    assert_eq!(join(&vec![], ", "), "");
    assert_eq!(join(&vec!["x".to_string()], ", "), "x");
}

#[test]
fn numbers_are_written_in_decimal() {
    for n in [0, 7, 10, 99, 100, 2_592_000, u64::MAX] {
        assert_eq!(to_decimal(n), n.to_string());
    }
    for n in [0, -1, 5, i64::MIN, i64::MAX] {
        assert_eq!(to_signed_decimal(n), n.to_string());
    }
}

#[test]
fn numbers_are_read_as_the_standard_library_reads_them() {
    for s in [
        "", "+", "-", "0", "00", "+7", "-7", "12", "1 2", " 1", "12a", "１２",
        "18446744073709551615", "18446744073709551616", "99999999999999999999999",
    ] {
        let chars = chars_of(s);
        let n = chars.len();
        assert_eq!(parse_unsigned(&chars, 0, n, u64::MAX), s.parse::<u64>().ok(), "{:?}", s);
        assert_eq!(
            parse_unsigned(&chars, 0, n, u32::MAX as u64),
            s.parse::<u32>().ok().map(u64::from),
            "{:?}",
            s
        );
    }
}

#[test]
fn what_is_written_reads_back() {
    for n in [0u64, 9, 10, 12345, u64::MAX] {
        let chars = chars_of(&to_decimal(n));
        let len = chars.len();
        assert_eq!(parse_unsigned(&chars, 0, len, u64::MAX), Some(n));
    }
}

#[test]
fn prefixes_are_measured_in_bytes() {
    for s in ["", "2024-01-02T03:04:05Z", "ééé", "aé漢😀z", "0123456789"] {
        for n in 0..14u32 {
            assert_eq!(prefix_of_bytes(s, n).as_deref(), s.get(..n as usize), "{:?} {}", s, n);
        }
        assert_eq!(utf8_len(s), s.len());
    }
}
