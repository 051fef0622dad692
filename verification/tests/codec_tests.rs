//! The on-disk codecs — the canonical JSON-Lines package files and the
//! relaxed `config.json` reader — exercised on concrete values.

use wally_index::codec::{
    encode_manifest, parse_config_text, parse_manifest_line, parse_package_file,
};
use wally_index::manifest::Manifest;
use wally_index::package_name::PackageName;

fn manifest(scope: &str, name: &str, version: &str) -> Manifest {
    let name = PackageName::new(scope, name).expect("identifier should be accepted");
    Manifest::new(name, version).expect("version should be accepted")
}

#[test]
fn encode_manifest_is_canonical_json() {
    let m = manifest("acme", "foo", "1.0.0");
    assert_eq!(encode_manifest(&m), "{\"name\":\"acme/foo\",\"version\":\"1.0.0\"}");
}

#[test]
fn manifest_line_round_trips() {
    let m = manifest("acme", "foo", "1.2.3-beta+build4");
    let line = encode_manifest(&m);
    let back = parse_manifest_line(&line).expect("canonical line should parse");
    assert_eq!(back.name().scope(), "acme");
    assert_eq!(back.name().name(), "foo");
    assert_eq!(back.version(), "1.2.3-beta+build4");
}

#[test]
fn corrupt_lines_are_rejected() {
    assert!(parse_manifest_line("").is_none());
    assert!(parse_manifest_line("{\"name\":\"acme/foo\"}").is_none());
    assert!(parse_manifest_line("{\"name\":\"acmefoo\",\"version\":\"1.0.0\"}").is_none());
    assert!(parse_manifest_line("{\"name\":\"acme/foo\",\"version\":\"1.0.0\"} ").is_none());
    assert!(parse_manifest_line("{\"name\":\"Acme/foo\",\"version\":\"1.0.0\"}").is_none());
    assert!(parse_manifest_line("not json at all").is_none());
}

#[test]
fn package_file_round_trips_in_order() {
    let a = encode_manifest(&manifest("acme", "foo", "1.0.0"));
    let b = encode_manifest(&manifest("acme", "foo", "1.1.0"));
    let contents = format!("{}\n{}\n", a, b);
    let versions = parse_package_file(&contents).expect("canonical file should parse");
    assert_eq!(versions.len(), 2);
    assert_eq!(versions[0].version(), "1.0.0");
    assert_eq!(versions[1].version(), "1.1.0");
}

#[test]
fn empty_package_file_is_an_empty_history() {
    let versions = parse_package_file("").expect("empty file should parse");
    assert_eq!(versions.len(), 0);
}

#[test]
fn corrupt_line_fails_the_whole_read() {
    let good = encode_manifest(&manifest("acme", "foo", "1.0.0"));
    let contents = format!("{}\nthis line is corrupt\n{}\n", good, good);
    let err = parse_package_file(&contents).expect_err("corrupt line must fail the read");
    assert!(err.is_malformed());
    assert!(err.context().contains("could not parse"));
}

#[test]
fn file_without_trailing_newline_is_malformed() {
    let good = encode_manifest(&manifest("acme", "foo", "1.0.0"));
    let err = parse_package_file(&good).expect_err("unterminated line must fail the read");
    assert!(err.is_malformed());
}

#[test]
fn compact_config_parses() {
    let api = parse_config_text("{\"api\":\"https://example.com\"}").expect("config should parse");
    assert_eq!(api, "https://example.com");
}

#[test]
fn pretty_printed_config_parses() {
    let text = "{\n  \"api\": \"https://example.com\"\n}\n";
    assert_eq!(parse_config_text(text).as_deref(), Some("https://example.com"));
}

#[test]
fn escapes_in_the_config_are_resolved() {
    let text = "{\"api\": \"https:\\/\\/example.com\"}";
    assert_eq!(parse_config_text(text).as_deref(), Some("https://example.com"));
}

#[test]
fn extra_config_members_are_tolerated() {
    let text = "{\"api\": \"https://example.com\", \"note\": 1}";
    assert_eq!(parse_config_text(text).as_deref(), Some("https://example.com"));
}

#[test]
fn corrupt_config_is_rejected() {
    assert!(parse_config_text("").is_none());
    assert!(parse_config_text("{\"api\":42}").is_none());
    assert!(parse_config_text("{}").is_none());
    assert!(parse_config_text("[\"api\"]").is_none());
    assert!(parse_config_text("not json").is_none());
}

#[test]
fn non_url_api_is_rejected() {
    assert!(parse_config_text("{\"api\":\"\"}").is_none());
    assert!(parse_config_text("{\"api\":\"not a url\"}").is_none());
}
