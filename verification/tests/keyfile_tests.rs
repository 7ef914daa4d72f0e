use passop::keyfile::{extract_public_key, is_whitespace};

#[test]
fn key_from_age_keygen_file() {
    let text = "# created: 2024-01-01T00:00:00Z\n# public key: age1qyqszqgpqyqszqgpqyqszqgpqyqszqgp\nAGE-SECRET-KEY-1XYZ\n";
    assert_eq!(
        extract_public_key(text),
        Some("age1qyqszqgpqyqszqgpqyqszqgpqyqszqgp".to_string())
    );
}

#[test]
fn key_line_with_crlf_and_spaces() {
    let text = "# created: now\r\n# public key:   age1abc  \r\nAGE-SECRET-KEY-1\r\n";
    assert_eq!(extract_public_key(text), Some("age1abc".to_string()));
}

#[test]
fn first_key_line_wins() {
    let text = "# public key: first\n# public key: second\n";
    assert_eq!(extract_public_key(text), Some("first".to_string()));
}

#[test]
fn every_prefix_in_the_line_is_removed() {
    let text = "# public key: a# public key: b\n";
    assert_eq!(extract_public_key(text), Some("ab".to_string()));
}

#[test]
fn prefix_must_start_the_line() {
    let text = "x # public key: nope\nAGE-SECRET-KEY-1\n";
    assert_eq!(extract_public_key(text), None);
}

#[test]
fn no_key_line() {
    assert_eq!(extract_public_key(""), None);
    assert_eq!(extract_public_key("AGE-SECRET-KEY-1\n"), None);
    assert_eq!(extract_public_key("# public key:"), None);
}

#[test]
fn key_line_without_newline_at_end() {
    assert_eq!(extract_public_key("# public key: age1end"), Some("age1end".to_string()));
}

#[test]
fn empty_key() {
    assert_eq!(extract_public_key("# public key: \n"), Some(String::new()));
}

#[test]
fn whitespace_matches_std() {
    for c in ['\t', '\n', '\u{b}', '\u{c}', '\r', ' ', '\u{85}', '\u{a0}', '\u{1680}', '\u{2000}', '\u{200a}', '\u{2028}', '\u{2029}', '\u{202f}', '\u{205f}', '\u{3000}', 'a', '#', '\u{200b}', '\u{feff}'] {
        assert_eq!(is_whitespace(c), c.is_whitespace(), "{:?}", c);
    }
}
