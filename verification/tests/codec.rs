use codex_scout::codec::{frame, parse, render, MAX_DEPTH};
use codex_scout::json::{Fields, Json};

#[test]
fn documents_are_read_and_written() {
    for (text, wanted) in [
        ("null", "null"),
        (" true ", "true"),
        ("-7", "-7"),
        ("18446744073709551615", "18446744073709551615"),
        ("-9223372036854775808", "-9223372036854775808"),
        ("1.50", "1.5"),
        ("-0", "-0.0"),
        ("[1, [2], {}]", "[1,[2],{}]"),
        ("{\"b\":1, \"a\":{\"c\":\"\\n\"}}", "{\"a\":{\"c\":\"\\n\"},\"b\":1}"),
        ("{\"a\":1,\"a\":2}", "{\"a\":2}"),
        ("\"\\u00e9\"", "\"\u{e9}\""),
    ] {
        assert_eq!(render(parse(text).unwrap()), wanted);
    }
}

#[test]
fn what_is_no_document_is_refused() {
    assert_eq!(parse("").err().unwrap(), "EOF while parsing a value at line 1 column 0");
    assert_eq!(parse("{} x").err().unwrap(), "trailing characters at line 1 column 4");
    assert!(parse("\"\\ud800\"").is_err());
    assert!(parse("1e999").is_err());
}

#[test]
fn a_frame_is_one_line() {
    let json = Fields::new().with("text\n", Json::string("a\nb\r\n")).object();
    assert_eq!(frame(json), "{\"text\\n\":\"a\\nb\\r\\n\"}\n");
}

#[test]
fn the_last_entry_under_a_key_counts() {
    let json = Json::Object(vec![
        ("k".to_string(), Json::Unsigned(1)),
        ("k".to_string(), Json::Bool(true)),
        ("j".to_string(), Json::Signed(5)),
    ]);
    assert_eq!(json.at("k").as_bool(), Some(true));
    assert_eq!(json.at("j").as_u64(), Some(5));
    assert!(json.get("x").is_none());
    assert!(json.at("x").at("y").as_str().is_none());
    assert_eq!(json.into_field("k").as_bool(), Some(true));
    assert_eq!(
        render(Json::Object(vec![
            ("k".to_string(), Json::Unsigned(1)),
            ("k".to_string(), Json::Null),
        ])),
        "{\"k\":null}"
    );
}

#[test]
fn values_are_told_apart() {
    let fraction = parse("0.5").unwrap();
    assert_eq!(fraction.as_u64(), None);
    assert_eq!(fraction.as_str(), None);
    assert_eq!(fraction.as_bool(), None);
    assert!(fraction.as_array().is_none());
    assert!(fraction.get("a").is_none());
    assert_eq!(Json::Signed(-5).as_u64(), None);
    assert_eq!(render(Json::Signed(5)), "5");
    assert!(Json::string("a").is_text("a"));
    assert!(!Json::string("a").is_text("b"));
    assert!(!Json::Null.is_text(""));
    let array = parse("[1,2]").unwrap();
    assert_eq!(array.as_array().unwrap().len(), 2);
    assert!(matches!(array.into_field("0"), Json::Null));
}

#[test]
fn what_is_written_reads_back() {
    for text in [
        "null",
        "false",
        "0",
        "18446744073709551615",
        "-9223372036854775808",
        "\"\\u0000\\u001f\\\"\\\\/\u{7f}\u{2028}\u{1f600}\"",
        "[[],{},[1,-1,\"\"]]",
        "{\"\":{\"a\\n\":[null]},\"b\":true}",
    ] {
        let written = render(parse(text).unwrap());
        assert_eq!(written, text);
        assert_eq!(render(parse(&written).unwrap()), written);
    }
}

#[test]
fn documents_are_read_down_to_a_depth() {
    let deep = |n: usize| {
        let mut json = Json::Unsigned(1);
        for _ in 0..n {
            json = Json::Array(vec![json]);
        }
        json
    };
    assert_eq!(MAX_DEPTH, 127);
    let text = render(deep(127));
    assert_eq!(render(parse(&text).unwrap()), text);
    assert!(parse(&render(deep(128))).is_err());
}

#[test]
fn a_later_entry_takes_the_place_of_any_earlier_one() {
    let entry = |key: &str, n: u64| (key.to_string(), Json::Unsigned(n));
    let json = Json::Object(vec![
        entry("a", 1),
        entry("b", 2),
        entry("a", 3),
        entry("c", 4),
        entry("b", 5),
        entry("a", 6),
    ]);
    assert_eq!(render(json), "{\"a\":6,\"b\":5,\"c\":4}");
}
