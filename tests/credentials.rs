use base64::engine::general_purpose::STANDARD;
use base64::Engine;
use listshare_auth::credentials::{
    credentials_from_decoded, extract_identifier_and_password, split_once_colon,
};
use listshare_auth::text::{starts_with_ignore_case, to_ascii_lower};

fn basic_header(prefix: &str, text: &str) -> String {
    format!("{}{}", prefix, STANDARD.encode(text))
}

fn pair(a: &str, b: &str) -> Option<(String, String)> {
    Some((a.to_string(), b.to_string()))
}

#[test]
fn prefix_ignores_ascii_case() {
    assert!(starts_with_ignore_case("Basic abc", "basic"));
    assert!(starts_with_ignore_case("BASIC", "basic"));
    assert!(starts_with_ignore_case("bAsIc", "BaSiC"));
}

#[test]
fn prefix_exhausted_needle_is_a_match() {
    assert!(starts_with_ignore_case("anything", ""));
    assert!(starts_with_ignore_case("", ""));
    assert!(starts_with_ignore_case("basics", "basic"));
}

#[test]
fn prefix_exhausted_haystack_is_no_match() {
    assert!(!starts_with_ignore_case("bas", "basic"));
    assert!(!starts_with_ignore_case("", "basic"));
}

#[test]
fn prefix_mismatch() {
    assert!(!starts_with_ignore_case("Bearer token", "basic"));
    assert!(!starts_with_ignore_case("bäsic", "basic"));
}

#[test]
fn ascii_lowering() {
    assert_eq!(to_ascii_lower('A'), 'a');
    assert_eq!(to_ascii_lower('Z'), 'z');
    assert_eq!(to_ascii_lower('a'), 'a');
    assert_eq!(to_ascii_lower('@'), '@');
    assert_eq!(to_ascii_lower('['), '[');
    assert_eq!(to_ascii_lower('Ä'), 'Ä');
}

#[test]
fn parses_basic_credentials() {
    let header = basic_header("Basic ", "id:secret");
    assert_eq!(extract_identifier_and_password(&header), pair("id", "secret"));
}

#[test]
fn scheme_is_case_insensitive() {
    for prefix in ["basic ", "BASIC ", "bAsIc "] {
        let header = basic_header(prefix, "id:secret");
        assert_eq!(extract_identifier_and_password(&header), pair("id", "secret"));
    }
}

#[test]
fn secret_keeps_later_colons() {
    let header = basic_header("Basic ", "alice:pa:ss:word");
    assert_eq!(extract_identifier_and_password(&header), pair("alice", "pa:ss:word"));
}

#[test]
fn white_space_is_tolerated() {
    let header = basic_header("  \tBasic \t  ", "bob:hunter2");
    assert_eq!(extract_identifier_and_password(&header), pair("bob", "hunter2"));
}

#[test]
fn empty_identifier_and_secret() {
    let header = basic_header("Basic ", ":");
    assert_eq!(extract_identifier_and_password(&header), pair("", ""));
}

#[test]
fn other_schemes_are_rejected() {
    assert_eq!(extract_identifier_and_password("Bearer abc.def"), None);
    assert_eq!(extract_identifier_and_password(""), None);
    assert_eq!(extract_identifier_and_password("Bas"), None);
    let header = basic_header("Digest ", "id:secret");
    assert_eq!(extract_identifier_and_password(&header), None);
}

#[test]
fn scheme_needs_separating_white_space() {
    let header = basic_header("Basic", "id:secret");
    assert_eq!(extract_identifier_and_password(&header), None);
    assert_eq!(extract_identifier_and_password("Basic"), None);
}

#[test]
fn missing_colon_is_rejected() {
    let header = basic_header("Basic ", "nopassword");
    assert_eq!(header, "Basic bm9wYXNzd29yZA==");
    assert_eq!(extract_identifier_and_password(&header), None);
}

#[test]
fn invalid_base64_is_rejected() {
    assert_eq!(extract_identifier_and_password("Basic !!!not-base64"), None);
    assert_eq!(extract_identifier_and_password("Basic aWQ6c2VjcmV0-_"), None);
}

#[test]
fn invalid_utf8_is_rejected() {
    let header = format!("Basic {}", STANDARD.encode([0xffu8, b':', b'x']));
    assert_eq!(extract_identifier_and_password(&header), None);
}

#[test]
fn decoded_bytes_are_split() {
    assert_eq!(credentials_from_decoded(b"id:secret"), pair("id", "secret"));
    assert_eq!(credentials_from_decoded("ünï:cödé".as_bytes()), pair("ünï", "cödé"));
    assert_eq!(credentials_from_decoded(b"no colon"), None);
    assert_eq!(credentials_from_decoded(&[0xc3, 0x28, b':']), None);
}

#[test]
fn split_at_first_colon_only() {
    assert_eq!(split_once_colon("a:b:c"), pair("a", "b:c"));
    assert_eq!(split_once_colon(":x"), pair("", "x"));
    assert_eq!(split_once_colon("x:"), pair("x", ""));
    assert_eq!(split_once_colon("abc"), None);
}
