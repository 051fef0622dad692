//! A git-backed package registry index: a local mirror of a remote,
//! append-only package metadata store, with an in-memory cache over it and a
//! publish protocol that appends new versions and pushes them upstream.
//!
//! Package metadata lives in the mirror as JSON-Lines files, one line per
//! published version, in publish order. The codec for that format, the
//! derivation of the mirror's cache directory, and the cache itself are
//! verified; the version-control client, the filesystem and the platform
//! directories are collaborators reached through trusted wrappers.

pub mod strutil;
pub mod errors;
pub mod package_name;
pub mod manifest;
pub mod codec;
pub mod cache;
pub mod regurl;
pub mod paths;
pub mod fsio;
pub mod gitio;
pub mod index;
pub mod auth;
