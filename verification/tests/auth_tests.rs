//! The auth store's codec: reading the token out of the TOML text and
//! editing it in place.

use wally_index::auth::{auth_from_contents, contents_with_token, default_auth_contents, AuthStore};

#[test]
fn fresh_template_has_no_token() {
    let auth = auth_from_contents(default_auth_contents()).expect("template should parse");
    assert!(auth.token.is_none());
}

#[test]
fn token_entry_is_read_back() {
    let auth = auth_from_contents("token = \"SECRET-REDACTED\"\n").expect("table should parse");
    assert_eq!(auth.token.as_deref(), Some("SECRET-REDACTED"));
}

#[test]
fn non_string_token_is_malformed() {
    let err = auth_from_contents("token = 5\n").expect_err("a number is not a token");
    assert!(err.is_malformed());
}

#[test]
fn unparseable_auth_file_is_malformed() {
    let err = auth_from_contents("= not toml =").expect_err("garbage must not parse");
    assert!(err.is_malformed());
}

#[test]
fn setting_a_token_keeps_comments_and_other_keys() {
    let contents = "# a note to keep\nother = \"value\"\n";
    let updated = contents_with_token(contents, Some("tok")).expect("document should parse");
    assert!(updated.contains("# a note to keep"));
    assert!(updated.contains("other = \"value\""));
    let auth = auth_from_contents(&updated).expect("updated text should parse");
    assert_eq!(auth.token.as_deref(), Some("tok"));
}

#[test]
fn stored_tokens_survive_a_round_trip_through_the_auth_file() {
    AuthStore::set_token(Some("round-trip-token")).expect("token should be storable");
    let loaded = AuthStore::load().expect("auth file should load");
    assert_eq!(loaded.token.as_deref(), Some("round-trip-token"));
    AuthStore::set_token(None).expect("token should be removable");
    let cleared = AuthStore::load().expect("auth file should load again");
    assert!(cleared.token.is_none());
}

#[test]
fn repeating_the_same_edit_changes_nothing() {
    let once = contents_with_token(default_auth_contents(), Some("tok")).expect("first edit");
    let twice = contents_with_token(&once, Some("tok")).expect("second edit");
    assert_eq!(once, twice);
    let removed_once = contents_with_token(&once, None).expect("first removal");
    let removed_twice = contents_with_token(&removed_once, None).expect("second removal");
    assert_eq!(removed_once, removed_twice);
}

#[test]
fn removing_the_token_deletes_just_that_key() {
    let contents = "token = \"tok\"\n# a note to keep\nother = \"value\"\n";
    let updated = contents_with_token(contents, None).expect("document should parse");
    assert!(updated.contains("# a note to keep"));
    assert!(updated.contains("other = \"value\""));
    let auth = auth_from_contents(&updated).expect("updated text should parse");
    assert!(auth.token.is_none());
}
