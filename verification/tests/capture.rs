use codex_scout::capture::{
    provider_error, provider_error_text, LimitedCapture, MAX_CAPTURE_BYTES,
};

#[test]
fn only_the_start_is_kept() {
    let capture = LimitedCapture::new(5);
    let capture = capture.take(b"ab").take(b"").take(b"cdef").take(b"g");
    assert_eq!(capture.into_bytes(), b"abcde");
    let capture = LimitedCapture::new(5).take(b"abcdefg");
    assert_eq!(capture.into_bytes(), b"abcde");
    assert!(LimitedCapture::new(0).take(b"a").into_bytes().is_empty());
    assert_eq!(MAX_CAPTURE_BYTES, 1024 * 1024);
}

#[test]
fn the_standard_error_is_reported_on_one_line() {
    assert_eq!(provider_error("scout", b""), "scout failed");
    assert_eq!(provider_error("scout", b" \n\t"), "scout failed");
    assert_eq!(provider_error("scout", b"no\n  such  file\n"), "scout failed: no such file");
    assert_eq!(provider_error("scout", b"a\xff\xfeb"), "scout failed: a\u{fffd}\u{fffd}b");
}

#[test]
fn the_report_is_cut_after_500_characters() {
    let long = "\u{e9}".repeat(600);
    let report = provider_error_text("scout", &long);
    assert_eq!(report, format!("scout failed: {}", "\u{e9}".repeat(500)));
    let exact = "x".repeat(500);
    assert_eq!(provider_error_text("scout", &exact), format!("scout failed: {exact}"));
}

#[test]
fn the_white_space_of_a_report_is_single_spaces() {
    let text = "  a\r\n\t b\u{2003}\u{85}c ".repeat(200);
    let report = provider_error_text("scout", &text);
    let rest = report.strip_prefix("scout").unwrap();
    assert!(rest.starts_with(" failed: a b c a b"));
    assert!(rest.chars().all(|c| c == ' ' || !c.is_whitespace()));
    assert!(!rest.contains("  "));
}
