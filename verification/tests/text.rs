use iaiken::text::{
    chars_of, contains_str, find_char, first_token, is_whitespace, join, join_lines, lines,
    push_decimal, starts_with_str, string_of, trim,
};

fn cs(s: &str) -> Vec<char> {
    s.chars().collect()
}

#[test]
fn chars_and_strings_convert_both_ways() {
    assert_eq!(chars_of("héllo\n"), vec!['h', 'é', 'l', 'l', 'o', '\n']);
    assert_eq!(string_of(&cs("a→b")), "a→b");
    assert_eq!(chars_of(""), Vec::<char>::new());
}

#[test]
fn white_space_is_the_unicode_property() {
    for c in [' ', '\t', '\n', '\r', '\u{b}', '\u{c}', '\u{85}', '\u{a0}', '\u{1680}', '\u{2000}',
        '\u{200a}', '\u{2028}', '\u{2029}', '\u{202f}', '\u{205f}', '\u{3000}']
    {
        assert!(is_whitespace(c));
        assert!(c.is_whitespace());
    }
    for c in ['a', '0', '\u{200b}', '\u{feff}', '\u{8}', '\u{e}', '\u{1f}'] {
        assert!(!is_whitespace(c));
        assert!(!c.is_whitespace());
    }
}

#[test]
fn trim_agrees_with_std() {
    for s in ["", "  ", " a b ", "\t\nfn x\r\n", "\u{a0}x\u{3000}", "x", " x", "x "] {
        assert_eq!(string_of(&trim(&cs(s))), s.trim());
    }
}

#[test]
fn lines_agree_with_std() {
    for s in ["", "\n", "a", "a\n", "a\nb", "a\r\nb\r\n", "a\r", "\r\n\r\n", "a\n\nb", "x\r\r\ny"] {
        let ours: Vec<String> = lines(&cs(s)).iter().map(|l| string_of(l)).collect();
        let std: Vec<String> = s.lines().map(|l| l.to_string()).collect();
        assert_eq!(ours, std);
    }
}

#[test]
fn join_puts_the_separator_between_items() {
    assert_eq!(string_of(&join_lines(&vec![cs("a"), cs(""), cs("b")])), "a\n\nb");
    assert_eq!(string_of(&join_lines(&Vec::new())), "");
    assert_eq!(string_of(&join(&vec![cs("x"), cs("y")], &cs(", "))), "x, y");
    assert_eq!(string_of(&join(&vec![cs("x")], &cs(", "))), "x");
}

#[test]
fn prefix_search_and_tokens() {
    assert!(starts_with_str(&cs("pub fn f"), "pub fn"));
    assert!(!starts_with_str(&cs("pu"), "pub"));
    assert!(starts_with_str(&cs("x"), ""));
    assert!(contains_str(&cs("a fn b"), "fn "));
    assert!(!contains_str(&cs("a fn"), "fn "));
    assert!(contains_str(&cs(""), ""));
    assert_eq!(find_char(&cs("a(b(c"), 0, '('), 1);
    assert_eq!(find_char(&cs("a(b(c"), 2, '('), 3);
    assert_eq!(find_char(&cs("abc"), 0, '('), 3);
    assert_eq!(first_token(&cs("  one two")), Some(cs("one")));
    assert_eq!(first_token(&cs(" \t ")), None);
}

#[test]
fn numbers_are_written_in_decimal() {
    for n in [0u64, 7, 10, 99, 100, 65535, 4294967295, u64::MAX] {
        let mut out = Vec::new();
        push_decimal(&mut out, n);
        assert_eq!(string_of(&out), n.to_string());
    }
}
