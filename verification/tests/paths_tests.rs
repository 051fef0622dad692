//! Path derivation: deterministic, distinct across registries, and honest
//! about the digest it embeds.

use wally_index::paths::{hex_encode, index_ident, index_path_for, package_rel_path};
use wally_index::package_name::PackageName;
use wally_index::regurl::RegistryUrl;

#[test]
fn hex_matches_the_reference_encoder() {
    let bytes: Vec<u8> = vec![0x00, 0x01, 0x0f, 0x10, 0xab, 0xcd, 0xef, 0xff];
    assert_eq!(hex_encode(&bytes), hex::encode(&bytes));
}

#[test]
fn index_ident_embeds_the_digest_of_the_canonical_url() {
    let url = RegistryUrl::parse("https://github.com/acme/registry").expect("url should parse");
    let digest = blake3::hash(url.text().as_bytes());
    let expected = format!("github.com-{}", hex::encode(&digest.as_bytes()[..8]));
    assert_eq!(index_ident(&url), expected);
}

#[test]
fn index_ident_is_deterministic() {
    let a = RegistryUrl::parse("https://example.com/registry").expect("url should parse");
    let b = RegistryUrl::parse("https://example.com/registry").expect("url should parse");
    assert_eq!(index_ident(&a), index_ident(&b));
    assert_eq!(index_path_for("/cache", &a), index_path_for("/cache", &b));
}

#[test]
fn distinct_registries_get_distinct_idents() {
    let a = RegistryUrl::parse("https://example.com/registry").expect("url should parse");
    let b = RegistryUrl::parse("https://example.org/registry").expect("url should parse");
    assert_ne!(index_ident(&a), index_ident(&b));
}

#[test]
fn file_urls_use_the_local_registry_fallback() {
    let url = RegistryUrl::parse("file:///srv/registry").expect("url should parse");
    assert!(index_ident(&url).starts_with("local-registry-"));
}

#[test]
fn index_path_joins_beneath_the_cache_root() {
    let url = RegistryUrl::parse("https://example.com/registry").expect("url should parse");
    let path = index_path_for("/cache", &url);
    assert!(path.starts_with("/cache/wally/index/example.com-"));
}

#[test]
fn package_rel_path_is_scope_slash_name() {
    let name = PackageName::new("acme", "foo").expect("identifier should be accepted");
    assert_eq!(package_rel_path(&name), "acme/foo");
}

#[test]
fn distinct_packages_get_distinct_paths() {
    let a = PackageName::new("acme", "foo").expect("identifier should be accepted");
    let b = PackageName::new("acme", "foo-bar").expect("identifier should be accepted");
    let c = PackageName::new("acme-foo", "bar").expect("identifier should be accepted");
    assert_ne!(package_rel_path(&a), package_rel_path(&b));
    assert_ne!(package_rel_path(&b), package_rel_path(&c));
}
