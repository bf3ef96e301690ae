use codex_scout::text::{
    compact, decimal_text, first_chars, join, lowers_to, same, starts_with, trim, trim_end,
    truncate_utf8,
};

#[test]
fn short_texts_are_not_cut() {
    assert_eq!(truncate_utf8("", 0), "");
    assert_eq!(truncate_utf8("abc ", 4), "abc ");
    assert_eq!(truncate_utf8("\u{e9}\u{e9}", 4), "\u{e9}\u{e9}");
}

#[test]
fn long_texts_are_cut_between_characters() {
    assert_eq!(truncate_utf8("abcdef", 3), "abc");
    assert_eq!(truncate_utf8("abcdef", 0), "");
    assert_eq!(truncate_utf8("a\u{e9}\u{e9}", 4), "a\u{e9}");
    assert_eq!(truncate_utf8("\u{1f600}\u{1f600}", 7), "\u{1f600}");
    assert_eq!(truncate_utf8("\u{1f600}", 3), "");
    assert_eq!(truncate_utf8("ab \u{3000}cd", 4), "ab");
    assert_eq!(truncate_utf8("  cd", 2), "");
}

#[test]
fn a_cut_text_is_not_cut_again() {
    for (text, max) in [("one two three", 8), ("\u{20ac}\u{20ac}\u{20ac}", 7), ("   x", 3)] {
        let once = truncate_utf8(text, max);
        assert!(once.len() <= max);
        assert!(text.starts_with(&once));
        assert_eq!(truncate_utf8(&once, max), once);
    }
}

#[test]
fn white_space_is_trimmed() {
    assert_eq!(trim(" \t\r\n a b\u{85}\u{2028}"), "a b");
    assert_eq!(trim("\u{1680}\u{2003}"), "");
    assert_eq!(trim("\u{200b}x\u{feff}"), "\u{200b}x\u{feff}");
    assert_eq!(trim_end("  a  "), "  a");
    assert_eq!(trim_end(""), "");
}

#[test]
fn white_space_is_told_as_by_the_standard_library() {
    for code in 0..0x11_0000u32 {
        if let Some(c) = char::from_u32(code) {
            let wanted = (0x09..=0x0d).contains(&code)
                || [0x20, 0x85, 0xa0, 0x1680, 0x2028, 0x2029, 0x202f, 0x205f, 0x3000]
                    .contains(&code)
                || (0x2000..=0x200a).contains(&code);
            assert_eq!(c.is_whitespace(), wanted, "{:x}", code);
        }
    }
}

#[test]
fn words_are_joined_by_single_spaces() {
    assert_eq!(compact("  one\n\ttwo  three "), "one two three");
    assert_eq!(compact(" \n"), "");
    assert_eq!(compact("x"), "x");
    let once = compact("\u{a0}a\u{3000}\u{3000}b c\r\n");
    assert_eq!(once, "a b c");
    assert_eq!(compact(&once), once);
    assert_eq!(join(&vec!["a".to_string(), "".to_string(), "b c".to_string()]), "a  b c");
    assert_eq!(join(&Vec::new()), "");
}

#[test]
fn texts_are_compared() {
    assert!(same("", ""));
    assert!(!same("a", "A"));
    assert!(starts_with("gpt-5", "gpt-"));
    assert!(starts_with("gpt-", "gpt-"));
    assert!(!starts_with("gpt", "gpt-"));
    assert!(!starts_with("xgpt-", "gpt-"));
    assert!(lowers_to("A[Z]\u{c9}", "a[z]\u{c9}"));
    assert!(!lowers_to("A", "A"));
    assert!(!lowers_to("@", "`"));
}

#[test]
fn numbers_are_written_in_decimal() {
    for n in [0, 7, 10, 99, 100, 4_294_967_296, u64::MAX] {
        assert_eq!(decimal_text(n), n.to_string());
    }
}

#[test]
fn first_characters_are_taken() {
    assert_eq!(first_chars("\u{e9}a\u{e9}", 2), "\u{e9}a");
    assert_eq!(first_chars("ab", 2), "ab");
    assert_eq!(first_chars("ab", 3), "ab");
    assert_eq!(first_chars("ab", 0), "");
}

#[test]
fn the_smaller_limit_counts() {
    for text in ["one  two three", "\u{20ac} \u{3000}\u{20ac}x y", "   x   y", "abc"] {
        for larger in 0..20 {
            let long = truncate_utf8(text, larger);
            for smaller in 0..larger + 1 {
                let short = truncate_utf8(text, smaller);
                assert_eq!(truncate_utf8(&long, smaller), short);
                assert!(long.starts_with(&short));
            }
        }
    }
    assert_eq!(truncate_utf8(&truncate_utf8("one  two three", 8), 5), "one");
}
