//! The URL model: what the index reads of a registry URL.

use wally_index::regurl::RegistryUrl;

#[test]
fn https_urls_have_a_domain() {
    let url = RegistryUrl::parse("https://example.com/registry").expect("url should parse");
    assert_eq!(url.scheme(), "https");
    assert_eq!(url.domain().as_deref(), Some("example.com"));
    assert_eq!(url.text(), "https://example.com/registry");
}

#[test]
fn parsing_canonicalises_the_text() {
    let url = RegistryUrl::parse("https://example.com").expect("url should parse");
    assert_eq!(url.text(), "https://example.com/");
}

#[test]
fn file_urls_have_no_domain() {
    let url = RegistryUrl::parse("file:///srv/registry").expect("url should parse");
    assert_eq!(url.scheme(), "file");
    assert!(url.domain().is_none());
}

#[test]
fn a_relative_reference_is_rejected() {
    assert!(RegistryUrl::parse("not a url").is_none());
    assert!(RegistryUrl::parse("/just/a/path").is_none());
}

#[test]
fn duplicates_are_equal_part_for_part() {
    let url = RegistryUrl::parse("https://example.com/registry").expect("url should parse");
    let copy = url.duplicate();
    assert_eq!(copy.text(), url.text());
    assert_eq!(copy.scheme(), url.scheme());
    assert_eq!(copy.domain(), url.domain());
}
