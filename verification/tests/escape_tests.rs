use telemetry_bridge::escape::escape_tag;

#[test]
fn escapes_comma() {
    assert_eq!(escape_tag("a,b"), "a\\,b");
}

#[test]
fn escapes_backslash() {
    assert_eq!(escape_tag("a\\b"), "a\\\\b");
}

#[test]
fn escapes_equals_and_space() {
    assert_eq!(escape_tag("a=b c"), "a\\=b\\ c");
}

#[test]
fn empty_stays_empty() {
    assert_eq!(escape_tag(""), "");
}

#[test]
fn never_double_escapes_introduced_backslashes() {
    // Every special character is escaped exactly once, in input order,
    // and the backslash written by the escaper is left alone.
    assert_eq!(escape_tag("\\ ,="), "\\\\\\ \\,\\=");
    assert_eq!(escape_tag("a\\,b"), "a\\\\\\,b");
}

#[test]
fn plain_text_is_unchanged() {
    assert_eq!(escape_tag("Ferment"), "Ferment");
}
