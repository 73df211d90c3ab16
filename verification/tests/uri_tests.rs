use zot::uri::{is_uri, resolve, uri_search_with_google};

#[test]
fn recognizes_each_scheme() {
    assert!(is_uri("http://ab"));
    assert!(is_uri("https://ab"));
    assert!(is_uri("ftp://ab"));
    assert!(is_uri("file://ab"));
}

#[test]
fn recognizes_ordinary_addresses() {
    assert!(is_uri("https://example.com"));
    assert!(is_uri("https://www.google.com/search?q=weather"));
    assert!(is_uri("http://a-b.c/d_e~f"));
    assert!(is_uri("file:///etc/hosts"));
}

#[test]
fn scheme_may_stand_anywhere() {
    assert!(is_uri("see https://ab for details"));
}

#[test]
fn rejects_text_without_scheme() {
    assert!(!is_uri("example"));
    assert!(!is_uri(""));
    assert!(!is_uri("www.google.com"));
    assert!(!is_uri("weather in london"));
}

#[test]
fn rejects_misspelt_or_incomplete_schemes() {
    assert!(!is_uri("htp://ab"));
    assert!(!is_uri("http:/ab"));
    assert!(!is_uri("https//ab"));
    assert!(!is_uri("ftp:ab"));
}

#[test]
fn requires_a_remainder_of_two_characters() {
    assert!(!is_uri("https://"));
    assert!(!is_uri("https://a"));
    assert!(is_uri("https://ab"));
}

#[test]
fn must_not_end_on_trailing_punctuation() {
    assert!(!is_uri("https://a?"));
    assert!(!is_uri("https://a."));
    assert!(!is_uri("https://!!"));
    // a longer remainder may simply end earlier, before the punctuation
    assert!(is_uri("https://ab."));
}

#[test]
fn resolve_query_becomes_search_url() {
    assert_eq!(resolve("example"), "https://www.google.com/search?q=example");
}

#[test]
fn resolve_address_passes_through() {
    assert_eq!(resolve("https://example.com"), "https://example.com");
}

#[test]
fn resolve_empty_text_is_bare_endpoint() {
    assert_eq!(resolve(""), "https://www.google.com/search?q=");
}

#[test]
fn search_url_is_plain_concatenation() {
    assert_eq!(
        uri_search_with_google("weather"),
        "https://www.google.com/search?q=weather"
    );
    // no encoding is applied to the query text
    assert_eq!(
        uri_search_with_google("a b&c"),
        "https://www.google.com/search?q=a b&c"
    );
}
