//! The index's error taxonomy. Every failure carries a context string naming
//! the operation or path involved.

use vstd::prelude::*;

verus! {

/// What can go wrong while reading or mutating the index.
#[derive(Debug)]
pub enum Error {
    /// A config or package file that the caller asked for does not exist.
    NotFound(String),
    /// A file exists but does not parse; deleting the corrupt file is the
    /// usual remediation.
    Malformed(String),
    /// A directory or file could not be created, read or written.
    IoFailure(String),
    /// A clone, fetch, commit or push failed, authentication rejections and
    /// unresolved push conflicts included.
    GitFailure(String),
    /// A required home or cache directory could not be resolved.
    DirectoryUnavailable(String),
}

impl Error {
    /// The context the error was raised with.
    pub fn context(&self) -> (r: &String)
        ensures
            r@ == self.context_spec(),
    {
        match self {
            Error::NotFound(s) => s,
            Error::Malformed(s) => s,
            Error::IoFailure(s) => s,
            Error::GitFailure(s) => s,
            Error::DirectoryUnavailable(s) => s,
        }
    }

    pub open spec fn context_spec(&self) -> Seq<char> {
        match self {
            Error::NotFound(s) => s@,
            Error::Malformed(s) => s@,
            Error::IoFailure(s) => s@,
            Error::GitFailure(s) => s@,
            Error::DirectoryUnavailable(s) => s@,
        }
    }

    /// True for the `NotFound` variant.
    pub fn is_not_found(&self) -> (r: bool)
        ensures
            r == (self is NotFound),
    {
        match self {
            Error::NotFound(_) => true,
            _ => false,
        }
    }

    /// True for the `Malformed` variant.
    pub fn is_malformed(&self) -> (r: bool)
        ensures
            r == (self is Malformed),
    {
        match self {
            Error::Malformed(_) => true,
            _ => false,
        }
    }
}

} // verus!
