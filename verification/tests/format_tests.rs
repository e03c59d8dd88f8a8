use mdcopy::formats::{ClipboardFormat, parse_formats};

#[test]
fn test_parse_formats_single() {
    assert_eq!(parse_formats("html"), Ok(vec![ClipboardFormat::Html]));
    assert_eq!(parse_formats("rtf"), Ok(vec![ClipboardFormat::Rtf]));
    assert_eq!(parse_formats("markdown"), Ok(vec![ClipboardFormat::Markdown]));
    assert_eq!(parse_formats("md"), Ok(vec![ClipboardFormat::Markdown]));
}

#[test]
fn test_parse_formats_list_with_spaces_and_case() {
    assert_eq!(
        parse_formats(" HTML , rtf ,md"),
        Ok(vec![ClipboardFormat::Html, ClipboardFormat::Rtf, ClipboardFormat::Markdown])
    );
}

#[test]
fn test_parse_formats_native_is_refused() {
    assert_eq!(
        parse_formats("native"),
        Err("Native format is only available on macOS".to_string())
    );
    assert_eq!(
        parse_formats("html,nsattributedstring"),
        Err("Native format is only available on macOS".to_string())
    );
}

#[test]
fn test_parse_formats_unknown() {
    assert_eq!(parse_formats("bogus"), Err("Unknown format: bogus".to_string()));
    assert_eq!(parse_formats("html,PDF"), Err("Unknown format: pdf".to_string()));
    assert_eq!(parse_formats(""), Err("Unknown format: ".to_string()));
}
