//! Storage of authentication details for talking to registries: a TOML file
//! at `<home>/.wally/auth.toml` with an optional `token` entry, created from
//! a commented template when absent. Updates are structured edits that keep
//! comments and unrelated keys, never a full reparse-and-rewrite.

use vstd::prelude::*;
use crate::errors::Error;
use crate::fsio::{ensure_dir, read_file_text, write_file_text, ReadOutcome};

verus! {

/// Whether the text parses as a TOML table whose `token` entry, if present,
/// is a string: a function of the text alone.
pub uninterp spec fn auth_toml_ok(s: Seq<char>) -> bool;

/// The string `token` entry of the parsed table, if any.
pub uninterp spec fn auth_toml_token(s: Seq<char>) -> Option<Seq<char>>;

/// Whether the text parses as an editable TOML document.
pub uninterp spec fn auth_toml_editable(s: Seq<char>) -> bool;

/// The document with its `token` entry set (or removed, for `None`) in
/// place: comments and unrelated keys kept, a function of the inputs alone.
pub uninterp spec fn auth_toml_with_token(s: Seq<char>, token: Option<Seq<char>>) -> Seq<char>;

/// Relies on str::parse::<toml::Table>, and on the toml::Value variants to
/// accept a string `token` entry and refuse any other type.
#[verifier::external_body]
fn read_token_from_toml(s: &str) -> (r: Result<Option<String>, ()>)
    ensures
        r is Ok <==> auth_toml_ok(s@),
        r matches Ok(t) ==> t.deep_view() == auth_toml_token(s@),
{
    let table = match s.parse::<toml::Table>() {
        Ok(table) => table,
        Err(_) => return Err(()),
    };
    match table.get("token") {
        None => Ok(None),
        Some(toml::Value::String(token)) => Ok(Some(token.clone())),
        Some(_) => Err(()),
    }
}

/// Relies on str::parse::<toml_edit::DocumentMut>, on index assignment and
/// Table::remove to set or delete the `token` key in place, and on
/// DocumentMut::to_string. Reading the edited document back gives exactly the
/// token that was set (toml and toml_edit agree on the written table), and
/// repeating the same edit on its own result changes nothing: replacing a
/// value it wrote with the same value, or removing a key it removed, leaves
/// the text byte-identical.
#[verifier::external_body]
fn edit_token_in_toml(s: &str, token: Option<&str>) -> (r: Result<String, ()>)
    ensures
        r is Ok <==> auth_toml_editable(s@),
        r matches Ok(t) ==> t@ == auth_toml_with_token(s@, token.deep_view()),
        r matches Ok(t) ==> auth_toml_ok(t@) && auth_toml_token(t@) == token.deep_view(),
        r matches Ok(t) ==> auth_toml_editable(t@) && auth_toml_with_token(
            t@,
            token.deep_view(),
        ) == t@,
{
    let mut doc = match s.parse::<toml_edit::DocumentMut>() {
        Ok(doc) => doc,
        Err(_) => return Err(()),
    };
    match token {
        Some(token) => {
            doc["token"] = toml_edit::value(token);
        },
        None => {
            doc.as_table_mut().remove("token");
        },
    }
    Ok(doc.to_string())
}

/// Relies on dirs::home_dir: the user's home directory, if the environment
/// defines one. The answer depends on the environment, so nothing more is
/// stated of it.
#[verifier::external_body]
fn platform_home_dir() -> (r: Option<String>) {
    dirs::home_dir().map(|p| p.to_string_lossy().into_owned())
}

/// The template a fresh auth file starts from.
pub open spec fn default_auth_text() -> Seq<char> {
    "\n# This is where Wally stores details for authenticating with regstries.\n# It can be updated using `wally login` and `wally logout`.\n"@
}

/// The template a fresh auth file starts from.
pub fn default_auth_contents() -> (r: &'static str)
    ensures
        r@ == default_auth_text(),
{
    "\n# This is where Wally stores details for authenticating with regstries.\n# It can be updated using `wally login` and `wally logout`.\n"
}

/// The authentication details stored for registries.
#[derive(Debug)]
pub struct AuthStore {
    pub token: Option<String>,
}

/// Decodes the auth file's text: exactly the TOML tables whose `token`
/// entry, if present, is a string are accepted.
pub fn auth_from_contents(contents: &str) -> (r: Result<AuthStore, Error>)
    ensures
        r is Ok <==> auth_toml_ok(contents@),
        r matches Ok(a) ==> a.token.deep_view() == auth_toml_token(contents@),
        r matches Err(e) ==> e is Malformed,
{
    match read_token_from_toml(contents) {
        Ok(token) => Ok(AuthStore { token }),
        Err(()) => Err(
            Error::Malformed(
                String::from_str("malformed auth config file; try deleting it"),
            ),
        ),
    }
}

/// Rewrites the auth file's text with the `token` entry set (or removed, for
/// `None`), keeping comments and unrelated keys.
pub fn contents_with_token(contents: &str, token: Option<&str>) -> (r: Result<String, Error>)
    ensures
        r is Ok <==> auth_toml_editable(contents@),
        r matches Ok(t) ==> t@ == auth_toml_with_token(contents@, token.deep_view()),
        r matches Ok(t) ==> auth_toml_ok(t@) && auth_toml_token(t@) == token.deep_view(),
        r matches Ok(t) ==> auth_toml_editable(t@) && auth_toml_with_token(
            t@,
            token.deep_view(),
        ) == t@,
        r matches Err(e) ==> e is Malformed,
{
    match edit_token_in_toml(contents, token) {
        Ok(text) => Ok(text),
        Err(()) => Err(
            Error::Malformed(
                String::from_str("malformed auth config file; try deleting it"),
            ),
        ),
    }
}

/// The auth store's directory and file beneath the home directory:
/// `<home>/.wally` and `<home>/.wally/auth.toml`.
fn auth_paths() -> (r: Result<(String, String), Error>)
    ensures
        r matches Ok(p) ==> p.1@ == p.0@ + "/auth.toml"@ && (exists|home: Seq<char>|
            p.0@ == home + "/.wally"@),
        r matches Err(e) ==> e is DirectoryUnavailable,
{
    let home = match platform_home_dir() {
        Some(home) => home,
        None => {
            return Err(
                Error::DirectoryUnavailable(String::from_str("failed to find home directory")),
            );
        },
    };
    let ghost home_text = home@;
    let mut dir = home;
    dir.append("/.wally");
    let mut file = dir.clone();
    file.append("/auth.toml");
    proof {
        assert(dir@ == home_text + "/.wally"@);
    }
    Ok((dir, file))
}

/// The auth file's text for a read's outcome: the text read, the fixed
/// template when the file does not exist yet, and failure otherwise.
pub fn auth_contents_of(outcome: ReadOutcome, file: &str) -> (r: Result<String, Error>)
    ensures
        outcome matches ReadOutcome::Content(c) ==> (r matches Ok(t) && t@ == c@),
        outcome is Missing ==> (r matches Ok(t) && t@ == default_auth_text()),
        outcome is Failed ==> (r matches Err(e) && e is IoFailure),
{
    match outcome {
        ReadOutcome::Content(contents) => Ok(contents),
        ReadOutcome::Missing => Ok(default_auth_contents().to_owned()),
        ReadOutcome::Failed => {
            let mut msg = String::from_str("could not read ");
            msg.append(file);
            Err(Error::IoFailure(msg))
        },
    }
}

/// The auth file's current text: what is on disk, or the fresh template when
/// the file does not exist yet.
fn current_auth_contents(file: &str) -> (r: Result<String, Error>)
    ensures
        r matches Err(e) ==> e is IoFailure,
{
    auth_contents_of(read_file_text(file), file)
}

impl AuthStore {
    /// Loads the stored authentication details, starting from the template
    /// when no auth file exists yet.
    pub fn load() -> (r: Result<AuthStore, Error>)
        ensures
            r matches Err(e) ==> (e is DirectoryUnavailable || e is IoFailure || e is Malformed),
    {
        let (_dir, file) = match auth_paths() {
            Ok(paths) => paths,
            Err(e) => {
                return Err(e);
            },
        };
        let contents = match current_auth_contents(file.as_str()) {
            Ok(contents) => contents,
            Err(e) => {
                return Err(e);
            },
        };
        match auth_from_contents(contents.as_str()) {
            Ok(auth) => Ok(auth),
            Err(_) => {
                let mut msg = String::from_str("malformed Wally auth config file; try deleting ");
                msg.append(file.as_str());
                Err(Error::Malformed(msg))
            },
        }
    }

    /// Sets (or, for `None`, removes) the stored token, editing the auth file
    /// in place so that comments and unrelated keys survive, and creating it
    /// from the template when absent.
    pub fn set_token(token: Option<&str>) -> (r: Result<(), Error>)
        ensures
            r matches Err(e) ==> (e is DirectoryUnavailable || e is IoFailure || e is Malformed),
    {
        let (dir, file) = match auth_paths() {
            Ok(paths) => paths,
            Err(e) => {
                return Err(e);
            },
        };
        let contents = match current_auth_contents(file.as_str()) {
            Ok(contents) => contents,
            Err(e) => {
                return Err(e);
            },
        };
        let updated = match contents_with_token(contents.as_str(), token) {
            Ok(updated) => updated,
            Err(_) => {
                let mut msg = String::from_str("malformed Wally auth config file; try deleting ");
                msg.append(file.as_str());
                return Err(Error::Malformed(msg));
            },
        };
        if ensure_dir(dir.as_str()).is_err() {
            let mut msg = String::from_str("could not create ");
            msg.append(dir.as_str());
            return Err(Error::IoFailure(msg));
        }
        if write_file_text(file.as_str(), updated.as_str()).is_err() {
            let mut msg = String::from_str("could not write ");
            msg.append(file.as_str());
            return Err(Error::IoFailure(msg));
        }
        Ok(())
    }
}

} // verus!
