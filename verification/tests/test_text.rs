use headless_chrome_operation_map::utils::text::{contains, same_text, split, to_chars, trim, whitespace};

#[test]
fn to_chars_keeps_every_character() {
    assert_eq!(to_chars("a三b"), vec!['a', '三', 'b']);
    assert_eq!(to_chars(""), Vec::<char>::new());
}

#[test]
fn same_text_compares_character_by_character() {
    assert!(same_text("", ""));
    assert!(same_text("北京市", "北京市"));
    assert!(!same_text("北京市", "北京"));
    assert!(!same_text("abc", "abd"));
    assert!(!same_text("abc", "ABC"));
}

#[test]
fn contains_finds_a_run_anywhere() {
    assert!(contains("https://lbs.qq.com/getPoint/", "https://lbs.qq.com/getPoint/"));
    assert!(contains("https://lbs.qq.com/getPoint/#/x", "lbs.qq.com/getPoint/"));
    assert!(contains("xxhttps://lbs.qq.com/getPoint/", "getPoint/"));
    assert!(!contains("https://lbs.qq.com/getPoint", "https://lbs.qq.com/getPoint/"));
    assert!(!contains("ab", "abc"));
    assert!(!contains("", "a"));
    assert!(contains("abc", ""));
    assert!(contains("", ""));
    assert!(contains("aab", "ab"));
    assert!(!contains("a-b", "ab"));
    assert!(contains("三里屯路", "里屯"));
}

#[test]
fn split_keeps_empty_pieces() {
    let pieces = |s: &str| split(s, '#');
    assert_eq!(pieces("贵州省#贵阳市#南明区"), vec!["贵州省", "贵阳市", "南明区"]);
    assert_eq!(pieces("北京市"), vec!["北京市"]);
    assert_eq!(pieces(""), vec![""]);
    assert_eq!(pieces("#"), vec!["", ""]);
    assert_eq!(pieces("a#"), vec!["a", ""]);
    assert_eq!(pieces("#a"), vec!["", "a"]);
    assert_eq!(pieces("a##b"), vec!["a", "", "b"]);
    assert_eq!(split("/usr/bin:/bin", ':'), vec!["/usr/bin", "/bin"]);
}

#[test]
fn split_agrees_with_the_standard_library() {
    for text in ["", "#", "##", "a", "a#b", "#a#", "省#市#区#", "a:b#c"] {
        let expected: Vec<String> = text.split('#').map(|piece| piece.to_string()).collect();
        assert_eq!(split(text, '#'), expected);
        assert_eq!(split(text, '#').join("#"), text);
    }
}

#[test]
fn trim_drops_white_space_at_both_ends_only() {
    assert_eq!(trim("  北京市\n"), "北京市");
    assert_eq!(trim("北京市"), "北京市");
    assert_eq!(trim(""), "");
    assert_eq!(trim(" \t\r\n"), "");
    assert_eq!(trim(" a b "), "a b");
    assert_eq!(trim("\u{3000}贵阳市\u{a0}"), "贵阳市");
    assert_eq!(trim("\u{200b}x"), "\u{200b}x");
}

#[test]
fn trim_agrees_with_the_standard_library() {
    for text in ["", " ", "a", " a", "a ", "\u{2028}a\u{2029}", "\u{85}\u{1680}b c\u{205f}\u{202f}", "\u{1f}a"] {
        assert_eq!(trim(text), text.trim());
    }
}

#[test]
fn whitespace_is_the_unicode_property() {
    let mut code: u32 = 0;
    while code <= 0x3100 {
        if let Some(c) = char::from_u32(code) {
            assert_eq!(whitespace(c), c.is_whitespace(), "U+{:04X}", code);
        }
        code += 1;
    }
    assert!(!whitespace('\u{feff}'));
}
