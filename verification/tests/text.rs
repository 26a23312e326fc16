use burning_pro_server::text::{
    char_is_whitespace, chars_of, parse_i32, split_trimmed, str_eq, str_starts_with, trim,
};

#[test]
fn whitespace_is_what_std_says_for_every_char() {
    for code in 0..=0x10FFFFu32 {
        if let Some(c) = char::from_u32(code) {
            assert_eq!(char_is_whitespace(c), c.is_whitespace(), "U+{:04X}", code);
        }
    }
}

#[test]
fn trim_agrees_with_std() {
    let samples = [
        "",
        " ",
        "   \t\n",
        "abc",
        "  abc",
        "abc  ",
        " a b  c ",
        "\u{3000}\u{767a}\u{8a00} \u{8005}\u{2003}",
        "\u{a0}x\u{85}",
        "\r\n line \r\n",
        "a\u{200b}",
    ];
    for sample in samples.iter() {
        assert_eq!(trim(sample), sample.trim(), "{:?}", sample);
    }
}

#[test]
fn trim_gives_exact_values() {
    assert_eq!(trim("  hello world \n"), "hello world");
    assert_eq!(trim(" \t "), "");
}

#[test]
fn split_trimmed_agrees_with_std() {
    let samples = ["", ",", "a", "a,b", " a , b ,c", "a,,b", ",a,", "https://a.example, https://b.example ,"];
    for sample in samples.iter() {
        let expected: Vec<String> = sample.split(',').map(|s| s.trim().to_string()).collect();
        assert_eq!(split_trimmed(sample, ','), expected, "{:?}", sample);
    }
}

#[test]
fn split_trimmed_gives_exact_values() {
    assert_eq!(split_trimmed(" a, b ,,c ", ','), vec!["a", "b", "", "c"]);
    assert_eq!(split_trimmed("", ','), vec![""]);
}

#[test]
fn parse_i32_agrees_with_std() {
    let samples = [
        "", "0", "7", "-7", "+7", "007", "-0", "+", "-", "--1", "+-1", "1 ", " 1", "1_000",
        "2147483647", "2147483648", "-2147483648", "-2147483649", "99999999999999999999",
        "000000000000000000000000012", "-00000000000000000000002147483648", "12a", "a12",
        "\u{ff11}", "1.5", "0x10",
    ];
    for sample in samples.iter() {
        assert_eq!(parse_i32(sample), sample.parse::<i32>().ok(), "{:?}", sample);
    }
}

#[test]
fn parse_i32_gives_exact_values() {
    assert_eq!(parse_i32("42"), Some(42));
    assert_eq!(parse_i32("-2147483648"), Some(i32::MIN));
    assert_eq!(parse_i32("2147483647"), Some(i32::MAX));
    assert_eq!(parse_i32("2147483648"), None);
    assert_eq!(parse_i32("ten"), None);
}

#[test]
fn starts_with_agrees_with_std() {
    let samples = ["", "t", "tags", "tags_", "tags_1", "Tags_1", "xtags_", "tag\u{20ac}", "abc\u{20ac}"];
    for sample in samples.iter() {
        assert_eq!(str_starts_with(sample, "tags_"), sample.starts_with("tags_"), "{:?}", sample);
        assert!(str_starts_with(sample, ""));
    }
}

#[test]
fn str_eq_compares_contents() {
    assert!(str_eq("", ""));
    assert!(str_eq("abc", "abc"));
    assert!(!str_eq("abc", "abd"));
    assert!(!str_eq("abc", "ab"));
}

#[test]
fn chars_of_lists_the_characters() {
    assert_eq!(chars_of("a\u{767a}b"), vec!['a', '\u{767a}', 'b']);
    assert_eq!(chars_of(""), Vec::<char>::new());
}
