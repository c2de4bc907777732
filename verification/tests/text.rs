use predict_agent::text;

#[test]
fn equal_texts() {
    assert!(text::same("", ""));
    assert!(text::same("naïve", "naïve"));
    assert!(!text::same("naïve", "naive"));
    assert!(!text::same("up", "up "));
}

#[test]
fn search_gives_the_first_place_in_characters() {
    assert_eq!(text::find_text("äbcbc", "bc"), Some(1));
    assert_eq!(text::find_text("abc", ""), Some(0));
    assert_eq!(text::find_text("abc", "abcd"), None);
    assert_eq!(text::find_text("abc", "c"), Some(2));
    assert_eq!(text::find_text("aab", "ab"), Some(1));
}

#[test]
fn contained_texts() {
    assert!(text::contains_text("HTTP 429 Too Many Requests", "429"));
    assert!(!text::contains_text("HTTP 42", "429"));
    assert!(text::contains_text("x", ""));
}

#[test]
fn last_place_of_a_character() {
    assert_eq!(text::rfind("{a}}b", '}'), Some(3));
    assert_eq!(text::rfind("ä}", '}'), Some(1));
    assert_eq!(text::rfind("", '}'), None);
}

#[test]
fn blanks_at_the_ends() {
    assert_eq!(text::trim(" \t\n a b \u{3000}"), "a b");
    assert_eq!(text::trim("\u{2028}"), "");
    assert_eq!(text::trim("a"), "a");
    assert_eq!(text::trim("\u{200b}a"), "\u{200b}a");
}

#[test]
fn white_space_is_as_in_the_standard_library() {
    for n in 0..0x3100u32 {
        if let Some(c) = char::from_u32(n) {
            assert_eq!(text::is_white(c), c.is_whitespace(), "{:x}", n);
        }
    }
}

#[test]
fn decimal_numerals() {
    assert_eq!(text::u64_text(0), "0");
    assert_eq!(text::u64_text(1050), "1050");
    assert_eq!(text::u64_text(u64::MAX), "18446744073709551615");
    assert_eq!(text::i64_text(-7), "-7");
    assert_eq!(text::i64_text(i64::MIN), "-9223372036854775808");
    assert_eq!(text::i64_text(i64::MAX), "9223372036854775807");
}

#[test]
fn numerals_read_back() {
    for n in [0u64, 1, 9, 10, 12345678901234567890, u64::MAX] {
        assert_eq!(text::parse_u64(&text::u64_text(n)), Some(n));
    }
    assert_eq!(text::parse_u64("+5"), Some(5));
    assert_eq!(text::parse_u64("007"), Some(7));
    assert_eq!(text::parse_u64("18446744073709551616"), None);
    assert_eq!(text::parse_u64("-1"), None);
    assert_eq!(text::parse_u64(""), None);
    assert_eq!(text::parse_u64("+"), None);
    assert_eq!(text::parse_u64(" 5"), None);
}

#[test]
fn letters_in_either_case() {
    assert_eq!(text::to_lower("0xABcd-Z[@"), "0xabcd-z[@");
    assert_eq!(text::to_upper("up{`~09"), "UP{`~09");
    assert_eq!(text::to_upper("straße"), "STRASSE");
    assert_eq!(text::to_lower("ÄÖ"), "äö");
    assert_eq!(text::to_upper(""), "");
}
