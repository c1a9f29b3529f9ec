use dart_re_analyzer::text::{
    any_uppercase, char_is_whitespace, chars_of, contains_chars, decimal_string, ends_with_at,
    first_line_of, parse_usize_at, split_lines, starts_with_at, str_eq, string_of, string_of_all,
    trim_end_index, trim_start_index,
};

fn chars(s: &str) -> Vec<char> {
    s.chars().collect()
}

#[test]
fn white_space_is_what_the_standard_library_calls_white_space() {
    for code in 0..=0x10FFFFu32 {
        if let Some(c) = char::from_u32(code) {
            assert_eq!(char_is_whitespace(c), c.is_whitespace(), "U+{:04X}", code);
        }
    }
}

#[test]
fn trimming_agrees_with_the_standard_library() {
    for text in [
        "",
        " ",
        "  a b  ",
        "\t\r\nx\u{85}\u{a0}",
        "\u{2003}\u{3000}é \u{1680}",
        "no-space",
        " \u{200b} ",
    ] {
        let cs = chars(text);
        let lo = trim_start_index(&cs, 0, cs.len());
        assert_eq!(string_of(&cs, lo, cs.len()), text.trim_start(), "{:?}", text);
        let hi = trim_end_index(&cs, 0, cs.len());
        assert_eq!(string_of(&cs, 0, hi), text.trim_end(), "{:?}", text);
        let hi = trim_end_index(&cs, lo, cs.len());
        assert_eq!(string_of(&cs, lo, hi), text.trim(), "{:?}", text);
    }
}

#[test]
fn lines_agree_with_the_standard_library() {
    for text in [
        "",
        "\n",
        "a",
        "a\n",
        "a\nb",
        "a\r\nb\r\n",
        "a\rb\n",
        "a\r",
        "\r\n\r\n",
        "a\n\nb\n\n",
        "\r\r\n",
        "é\n日本\r\n🎉",
    ] {
        let expected: Vec<&str> = text.lines().collect();
        assert_eq!(split_lines(text), expected, "{:?}", text);
        assert_eq!(first_line_of(text), text.lines().next().unwrap_or(""), "{:?}", text);
    }
}

#[test]
fn numbers_are_read_as_the_standard_library_reads_them() {
    for text in [
        "0",
        "7",
        "42",
        "+42",
        "007",
        "",
        "+",
        "-1",
        "++1",
        "1+",
        " 1",
        "1 ",
        "1_000",
        "12a",
        "٣",
        "18446744073709551615",
        "18446744073709551616",
        "99999999999999999999999",
        "+18446744073709551615",
    ] {
        let cs = chars(text);
        assert_eq!(parse_usize_at(&cs, 0, cs.len()), text.parse::<usize>().ok(), "{:?}", text);
    }
    let cs = chars("ab123cd");
    assert_eq!(parse_usize_at(&cs, 2, 5), Some(123));
    assert_eq!(parse_usize_at(&cs, 2, 2), None);
}

#[test]
fn numbers_are_written_in_decimal() {
    for n in [0usize, 1, 9, 10, 11, 99, 100, 1234567890, usize::MAX] {
        assert_eq!(decimal_string(n), n.to_string());
    }
}

#[test]
fn substrings_are_found_where_they_are() {
    for (text, part) in [
        ("", ""),
        ("abc", ""),
        ("abc", "abc"),
        ("abc", "bc"),
        ("abc", "abcd"),
        ("abc", "ac"),
        ("aab", "ab"),
        ("/a/.dart_tool/b", "/.dart_tool/"),
        ("/a/dart_tool/b", "/.dart_tool/"),
        ("héllo", "llo"),
        ("", "a"),
    ] {
        assert_eq!(contains_chars(&chars(text), &chars(part)), text.contains(part), "{:?} {:?}", text, part);
        let cs = chars(text);
        assert_eq!(starts_with_at(&cs, 0, cs.len(), &chars(part)), text.starts_with(part));
        assert_eq!(ends_with_at(&cs, 0, cs.len(), &chars(part)), text.ends_with(part));
    }
    let cs = chars("xxabcxx");
    assert!(starts_with_at(&cs, 2, 5, &chars("abc")));
    assert!(!starts_with_at(&cs, 2, 4, &chars("abc")));
    assert!(ends_with_at(&cs, 2, 5, &chars("bc")));
    assert!(!ends_with_at(&cs, 3, 5, &chars("abc")));
}

#[test]
fn strings_and_their_characters() {
    assert_eq!(chars_of("héllo🎉"), chars("héllo🎉"));
    assert_eq!(chars_of(""), Vec::<char>::new());
    assert_eq!(string_of_all(&chars("héllo🎉")), "héllo🎉");
    assert_eq!(string_of(&chars("héllo🎉"), 1, 3), "él");
    assert!(str_eq("", ""));
    assert!(str_eq("é🎉", "é🎉"));
    assert!(!str_eq("a", "b"));
    assert!(!str_eq("a", "ab"));
    assert!(!str_eq("ab", "a"));
}

#[test]
fn upper_case_is_seen_anywhere() {
    assert!(any_uppercase(&chars("abC")));
    assert!(any_uppercase(&chars("Éa")));
    assert!(!any_uppercase(&chars("abc_1")));
    assert!(!any_uppercase(&chars("")));
}
