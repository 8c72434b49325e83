use real_estate_tracker::text::{
    blank, chars_of, join_text, i64_text, lines, same_text, trim, u32_text, u64_text, whitespace,
};

fn words(tokens: &[&str]) -> Vec<String> {
    tokens.iter().map(|t| t.to_string()).collect()
}

#[test]
fn whitespace_is_the_unicode_white_space_set() {
    for code in 0..=0x10ffffu32 {
        if let Some(c) = char::from_u32(code) {
            assert_eq!(whitespace(c), c.is_whitespace(), "U+{:04X}", code);
        }
    }
}

#[test]
fn trim_agrees_with_str_trim() {
    for text in [
        "", " ", "a", " a", "a ", "  a b  ", "\t\r\n x \u{000b}\u{000c}", "\u{2003}wide\u{205f}",
        "\u{200b}zero width stays\u{200b}", "\u{0085}\u{00a0}\u{1680}", "in  side",
    ] {
        assert_eq!(trim(text), text.trim(), "{:?}", text);
        assert_eq!(blank(text), text.trim().is_empty(), "{:?}", text);
    }
}

#[test]
fn lines_agree_with_str_lines() {
    for text in [
        "", "\n", "\n\n", "a", "a\n", "a\nb", "a\r\nb\r\n", "a\rb", "a\r", "a\r\n", "\r\n", "\r",
        "a\n\nb", "\na", "a\r\r\nb", "one\ntwo\r\nthree", "x\n\r", "\u{2028}\n\u{0085}",
    ] {
        let expected: Vec<String> = text.lines().map(|l| l.to_string()).collect();
        assert_eq!(lines(text), expected, "{:?}", text);
    }
}

#[test]
fn lines_have_exact_values() {
    assert_eq!(lines("Loaded\r\n{\"id\":7}\nDone"), words(&["Loaded", "{\"id\":7}", "Done"]));
    assert_eq!(lines("a\n\n"), words(&["a", ""]));
    assert!(lines("").is_empty());
}

#[test]
fn integers_render_as_plain_decimal_digits() {
    assert_eq!(u32_text(0), "0");
    assert_eq!(u32_text(9), "9");
    assert_eq!(u32_text(10), "10");
    assert_eq!(u32_text(1234567), "1234567");
    assert_eq!(u32_text(u32::MAX), "4294967295");
    assert_eq!(u64_text(u64::MAX), "18446744073709551615");
    assert_eq!(i64_text(0), "0");
    assert_eq!(i64_text(-1), "-1");
    assert_eq!(i64_text(i64::MIN), "-9223372036854775808");
    assert_eq!(i64_text(i64::MAX), "9223372036854775807");
    for n in [1u64, 99, 100, 1000000, 18446744073709551614] {
        assert_eq!(u64_text(n), n.to_string());
    }
}

#[test]
fn strings_and_characters_convert_both_ways() {
    let text = "a\u{00e9}\u{4e2d}\u{1f600}z";
    assert_eq!(chars_of(text), text.chars().collect::<Vec<char>>());
    assert_eq!(chars_of(""), Vec::<char>::new());
    assert_eq!(join_text("ab", "cd"), "abcd");
    assert_eq!(join_text("", "\u{1f600}"), "\u{1f600}");
    assert!(same_text("csv", "csv"));
    assert!(!same_text("csv", "csv "));
    assert!(!same_text("csv", "cSv"));
    assert!(same_text("", ""));
}
