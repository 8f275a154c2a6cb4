use sitegen::escape::{escape_rust_string, html_escape, unescape_rust_string};

#[test]
fn escape_plain_text_unchanged() {
    assert_eq!(escape_rust_string("hello world"), "hello world");
}

#[test]
fn escape_backslash_and_quote() {
    assert_eq!(escape_rust_string("a\\b\"c"), "a\\\\b\\\"c");
}

#[test]
fn escape_control_characters() {
    assert_eq!(escape_rust_string("x\ny\rz\tw"), "x\\ny\\rz\\tw");
}

#[test]
fn round_trip_quotes_backslashes_controls() {
    let cases = [
        "he said \"hi\"",
        "back\\slash",
        "line\nbreak\r\ttab",
        "\\\"\n\r\t",
        "mixed \\n literal and \n real",
        "\u{1}control\u{7f}",
        "",
    ];
    for s in cases {
        let escaped = escape_rust_string(s);
        assert_eq!(unescape_rust_string(&escaped), Some(s.to_string()));
    }
}

#[test]
fn unescape_rejects_dangling_backslash() {
    assert_eq!(unescape_rust_string("abc\\"), None);
}

#[test]
fn unescape_rejects_unknown_escape() {
    assert_eq!(unescape_rust_string("\\q"), None);
}

#[test]
fn unescape_decodes_known_escapes() {
    assert_eq!(
        unescape_rust_string("a\\\\b\\\"c\\nd\\re\\tf"),
        Some("a\\b\"c\nd\re\tf".to_string())
    );
}

#[test]
fn html_escape_all_five() {
    assert_eq!(html_escape("<a&b>\"'"), "&lt;a&amp;b&gt;&quot;&#39;");
}

#[test]
fn html_escape_plain_unchanged() {
    assert_eq!(html_escape("plain text 123"), "plain text 123");
}
