use taskscape::text::{decimal_text, is_whitespace, text_order, trim_text};

#[test]
fn trims_unicode_white_space() {
    assert_eq!(trim_text("  hello  "), "hello");
    assert_eq!(trim_text("\t\n a b \r\n"), "a b");
    assert_eq!(trim_text("\u{3000}x\u{00A0}"), "x");
    assert_eq!(trim_text("   "), "");
    assert_eq!(trim_text(""), "");
    assert_eq!(trim_text("inner  space"), "inner  space");
    for s in ["  a ", "\u{2003}b\u{2029}", "c", " \u{85}"] {
        assert_eq!(trim_text(s), s.trim());
    }
}

#[test]
fn white_space_set() {
    for c in [' ', '\t', '\n', '\u{0B}', '\u{0C}', '\r', '\u{85}', '\u{A0}', '\u{1680}', '\u{2000}',
        '\u{200A}', '\u{2028}', '\u{2029}', '\u{202F}', '\u{205F}', '\u{3000}'] {
        assert!(is_whitespace(c));
        assert!(c.is_whitespace());
    }
    for c in ['a', '0', '\u{200B}', '\u{FEFF}', '_'] {
        assert!(!is_whitespace(c));
        assert_eq!(is_whitespace(c), c.is_whitespace());
    }
}

#[test]
fn orders_text_like_str() {
    let cases = [("a", "b"), ("b", "a"), ("", "a"), ("a", ""), ("abc", "abd"), ("ab", "abc"),
        ("same", "same"), ("é", "z"), ("2024-01-02", "2024-01-10")];
    for (a, b) in cases {
        let r = text_order(a, b);
        match a.cmp(b) {
            std::cmp::Ordering::Less => assert!(r < 0),
            std::cmp::Ordering::Equal => assert_eq!(r, 0),
            std::cmp::Ordering::Greater => assert!(r > 0),
        }
    }
}

#[test]
fn renders_decimal() {
    assert_eq!(decimal_text(0), "0");
    assert_eq!(decimal_text(7), "7");
    assert_eq!(decimal_text(10), "10");
    assert_eq!(decimal_text(1234567), "1234567");
    assert_eq!(decimal_text(usize::MAX), usize::MAX.to_string());
}
