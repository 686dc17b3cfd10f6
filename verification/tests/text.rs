use cargo_icmd::text::{chars_of, contains_chars, excerpt, str_eq, trim_chars};

#[test]
fn excerpts_collapse_whitespace_and_truncate() {
    assert_eq!(excerpt("  hello \n\t world  "), "hello world");
    assert_eq!(excerpt(""), "");
    assert_eq!(excerpt(" \n "), "");
    let long = "word ".repeat(20);
    let cut = excerpt(&long);
    assert_eq!(cut.chars().count(), 57);
    assert!(cut.ends_with('…'));
    assert!(cut.starts_with("word word"));
    let exact = "x".repeat(56);
    assert_eq!(excerpt(&exact), exact);
}

#[test]
fn trimming_and_comparing_characters() {
    assert_eq!(trim_chars("  a b \t"), "a b");
    assert_eq!(trim_chars("   "), "");
    assert_eq!(trim_chars("\u{3000}wide\u{3000}"), "wide");
    assert!(str_eq("é", "é"));
    assert!(!str_eq("e", "é"));
    assert_eq!(chars_of("añb"), vec!['a', 'ñ', 'b']);
    assert!(contains_chars(&chars_of("selection area"), &chars_of("on a")));
    assert!(!contains_chars(&chars_of("abc"), &chars_of("abcd")));
}

#[test]
fn whitespace_is_the_unicode_white_space_set() {
    let samples = [
        "\u{85}\u{a0}x\u{1680}",
        "\u{2000}\u{200a}x y\u{2028}\u{2029}",
        "\u{202f}\u{205f}x\u{3000}\u{b}\u{c}\r\n",
        "\u{200b}x\u{200b}",
        "\u{feff}x",
        "\u{180e}x",
    ];
    for sample in samples {
        assert_eq!(trim_chars(sample), sample.trim());
    }
    for code in 0u32..0x3100 {
        if let Some(c) = char::from_u32(code) {
            let s = format!("{c}z{c}");
            assert_eq!(trim_chars(&s), s.trim(), "U+{code:04X}");
        }
    }
}
