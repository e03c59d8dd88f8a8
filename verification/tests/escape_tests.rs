use mdcopy::escape::{count_max_consecutive, escape_title, html_escape, push_rtf_escaped};

#[test]
fn test_html_escape() {
    assert_eq!(html_escape("hello"), "hello");
    assert_eq!(html_escape("<script>"), "&lt;script&gt;");
    assert_eq!(html_escape("a & b"), "a &amp; b");
    assert_eq!(html_escape("\"quoted\""), "&quot;quoted&quot;");
    assert_eq!(html_escape("<a href=\"test\">"), "&lt;a href=&quot;test&quot;&gt;");
}

#[test]
fn test_count_max_consecutive() {
    assert_eq!(count_max_consecutive("abc", '`'), 0);
    assert_eq!(count_max_consecutive("a`b`c", '`'), 1);
    assert_eq!(count_max_consecutive("a``b", '`'), 2);
    assert_eq!(count_max_consecutive("```code```", '`'), 3);
}

#[test]
fn test_escape_title() {
    assert_eq!(escape_title("hello"), "hello");
    assert_eq!(escape_title("hello \"world\""), "hello \\\"world\\\"");
    assert_eq!(escape_title("back\\slash"), "back\\\\slash");
}

#[test]
fn test_push_rtf_escaped_specials() {
    let mut rtf = String::new();
    push_rtf_escaped(&mut rtf, "a\\b{c}d");
    assert_eq!(rtf, "a\\\\b\\{c\\}d");
}

#[test]
fn test_push_rtf_escaped_newline() {
    let mut rtf = String::new();
    push_rtf_escaped(&mut rtf, "line1\nline2");
    assert_eq!(rtf, "line1\\line line2");
}

#[test]
fn test_push_rtf_escaped_unicode() {
    let mut rtf = String::new();
    push_rtf_escaped(&mut rtf, "caf\u{e9}");
    assert_eq!(rtf, "caf\\u233?");
}

#[test]
fn test_push_rtf_escaped_unicode_above_bmp_wraps_signed() {
    // Characters past U+7FFF wrap into negative 16-bit values.
    let mut rtf = String::new();
    push_rtf_escaped(&mut rtf, "\u{1F600}");
    assert_eq!(rtf, "\\u-2560?");
}

#[test]
fn test_push_rtf_escaped_appends() {
    let mut rtf = String::from("prefix ");
    push_rtf_escaped(&mut rtf, "tail");
    assert_eq!(rtf, "prefix tail");
}
