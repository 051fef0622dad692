//! Trusted wrappers around the filesystem. What a file holds depends on the
//! machine, so the contracts state nothing of the values handed back; the
//! verified callers state what they do with every possible answer.

use vstd::prelude::*;

verus! {

/// What reading a file can come to.
pub enum ReadOutcome {
    /// The file exists and holds this text.
    Content(String),
    /// The file does not exist.
    Missing,
    /// The file could not be read for another reason.
    Failed,
}

/// Relies on fs_err::read_to_string, and on io::Error::kind to tell a
/// missing file from another failure.
#[verifier::external_body]
pub(crate) fn read_file_text(path: &str) -> (r: ReadOutcome) {
    match fs_err::read_to_string(path) {
        Ok(contents) => ReadOutcome::Content(contents),
        Err(err) => {
            if err.kind() == std::io::ErrorKind::NotFound {
                ReadOutcome::Missing
            } else {
                ReadOutcome::Failed
            }
        },
    }
}

/// Relies on fs_err::create_dir_all: creates the directory and its parents.
#[verifier::external_body]
pub(crate) fn ensure_dir(path: &str) -> (r: Result<(), ()>) {
    fs_err::create_dir_all(path).map_err(|_| ())
}

/// Relies on fs_err::OpenOptions in append-and-create mode and on
/// io::Write::write_all: the text goes at the end of the file, which is
/// created first if absent, and an append is one write call.
#[verifier::external_body]
pub(crate) fn append_file_text(path: &str, data: &str) -> (r: Result<(), ()>) {
    let mut file = match fs_err::OpenOptions::new().append(true).create(true).open(path) {
        Ok(f) => f,
        Err(_) => return Err(()),
    };
    std::io::Write::write_all(&mut file, data.as_bytes()).map_err(|_| ())
}

/// Relies on fs_err::write: replaces the file's contents with the text.
#[verifier::external_body]
pub(crate) fn write_file_text(path: &str, data: &str) -> (r: Result<(), ()>) {
    fs_err::write(path, data).map_err(|_| ())
}

} // verus!
