//! The package index: a local git mirror of the remote registry, an
//! in-memory metadata cache over it, and the publish protocol.
//!
//! One index instance is the in-process unit of sharing: its methods take the
//! index exclusively, so update and publish never interleave their
//! version-control operations. Across processes the remote is the only shared
//! resource, and multi-writer safety rests on push-conflict detection plus a
//! bounded retry.

use std::sync::Arc;
use vstd::prelude::*;
use crate::cache::{share, MetadataCache, PackageMetadata};
use crate::codec::{encode_manifest, parse_config_text, parse_package_file, wf_all};
use crate::errors::Error;
use crate::fsio::{append_file_text, ensure_dir, read_file_text, ReadOutcome};
use crate::gitio::{
    git_clone, git_commit_staged, git_fast_forward, git_fetch, git_head_ref, git_open,
    git_push_ref, git_rebase_onto_fetched, git_stage_path, make_temp_dir, PushOutcome,
};
use crate::manifest::{Manifest, ManifestView};
use crate::package_name::{PackageName, PackageNameView};
use crate::paths::{index_path_for, index_path_of, package_rel_path, platform_cache_dir};
use crate::regurl::{RegistryUrl, RegistryUrlView};

verus! {

/// The configuration at the mirror root, `config.json`: the remote API
/// endpoint associated with the index.
#[derive(Debug)]
pub struct PackageIndexConfig {
    pub api: String,
}

/// A handle on one registry's local mirror.
pub struct PackageIndex {
    /// URL of the remote index.
    url: RegistryUrl,
    /// Where the mirror lives, and where packages are read from.
    path: String,
    /// The git handle used to update the mirror and push publishes.
    repository: git2::Repository,
    /// Every package snapshot read so far; never evicted, only replaced.
    package_cache: MetadataCache,
    /// An access token to try before the machine's ambient credentials.
    access_token: Option<String>,
    /// Keeps an ephemeral mirror's directory alive exactly as long as the
    /// index itself.
    #[allow(unused)]
    temp_dir: Option<tempfile::TempDir>,
}

impl PackageIndex {
    /// The cache keeps one entry per package.
    pub closed spec fn wf(&self) -> bool {
        self.package_cache.wf()
    }

    /// The cached snapshots, as a map from package identifier to versions.
    pub closed spec fn cache_view(&self) -> Map<PackageNameView, Seq<ManifestView>> {
        self.package_cache@
    }

    /// The remote URL the index was opened with.
    pub closed spec fn url_view(&self) -> RegistryUrlView {
        self.url@
    }

    /// The mirror's path on disk.
    pub closed spec fn path_view(&self) -> Seq<char> {
        self.path@
    }

    /// Opens (or clones) the mirror for a registry URL under the platform
    /// cache directory, then brings it up to date. The mirror's path is the
    /// pure derivation [`index_path_of`] over that directory, so a second
    /// index for the same URL in the same environment resolves to the same
    /// mirror.
    pub fn new(index_url: &RegistryUrl, access_token: Option<String>) -> (r: Result<
        PackageIndex,
        Error,
    >)
        ensures
            r matches Ok(idx) ==> idx.wf() && idx.url_view() == index_url@ && idx.cache_view()
                == Map::<PackageNameView, Seq<ManifestView>>::empty() && (exists|root: Seq<char>|
                idx.path_view() == index_path_of(root, index_url@)),
            r matches Err(e) ==> (e is DirectoryUnavailable || e is IoFailure || e is GitFailure),
    {
        let root = match platform_cache_dir() {
            Some(root) => root,
            None => {
                return Err(
                    Error::DirectoryUnavailable(
                        String::from_str("could not find the platform cache directory"),
                    ),
                );
            },
        };
        let path = index_path_for(root.as_str(), index_url);
        Self::open_at(index_url, path, access_token, None)
    }

    /// Opens (or clones) the mirror into a fresh temporary directory that
    /// lives exactly as long as the index, then brings it up to date.
    pub fn new_temp(index_url: &RegistryUrl, access_token: Option<String>) -> (r: Result<
        PackageIndex,
        Error,
    >)
        ensures
            r matches Ok(idx) ==> idx.wf() && idx.url_view() == index_url@ && idx.cache_view()
                == Map::<PackageNameView, Seq<ManifestView>>::empty(),
            r matches Err(e) ==> (e is IoFailure || e is GitFailure),
    {
        let (dir, path) = match make_temp_dir() {
            Ok(p) => p,
            Err(_) => {
                return Err(
                    Error::IoFailure(String::from_str("could not create a temporary directory")),
                );
            },
        };
        Self::open_at(index_url, path, access_token, Some(dir))
    }

    fn open_at(
        index_url: &RegistryUrl,
        path: String,
        access_token: Option<String>,
        temp_dir: Option<tempfile::TempDir>,
    ) -> (r: Result<PackageIndex, Error>)
        ensures
            r matches Ok(idx) ==> idx.wf() && idx.url_view() == index_url@ && idx.cache_view()
                == Map::<PackageNameView, Seq<ManifestView>>::empty() && idx.path_view() == path@,
            r matches Err(e) ==> (e is IoFailure || e is GitFailure),
    {
        let repository = match git_open(path.as_str()) {
            Ok(repo) => repo,
            Err(_) => {
                if ensure_dir(path.as_str()).is_err() {
                    let mut msg = String::from_str("could not create the mirror directory ");
                    msg.append(path.as_str());
                    return Err(Error::IoFailure(msg));
                }
                match git_clone(index_url.text().as_str(), path.as_str(), &access_token) {
                    Ok(repo) => repo,
                    Err(_) => {
                        let mut msg = String::from_str("could not clone the package index from ");
                        msg.append(index_url.text().as_str());
                        return Err(Error::GitFailure(msg));
                    },
                }
            },
        };
        let mut index = PackageIndex {
            url: index_url.duplicate(),
            path,
            repository,
            package_cache: MetadataCache::new(),
            access_token,
            temp_dir,
        };
        match index.update() {
            Ok(()) => Ok(index),
            Err(e) => Err(e),
        }
    }

    /// The remote URL the index was opened with.
    pub fn url(&self) -> (r: &RegistryUrl)
        ensures
            r@ == self.url_view(),
    {
        &self.url
    }

    /// Fetches from the remote and fast-forwards the local mirror, with the
    /// stored credential first and the machine's ambient credentials as the
    /// fallback. Idempotent: with no upstream change a second run finds the
    /// fetched head already equal to the local one and moves nothing; and at
    /// this layer nothing else changes either — the URL, the path and every
    /// cached snapshot stay exactly as they were. Transient failures are not
    /// retried here.
    pub fn update(&mut self) -> (r: Result<(), Error>)
        requires
            old(self).wf(),
        ensures
            final(self).wf(),
            final(self).url_view() == old(self).url_view(),
            final(self).path_view() == old(self).path_view(),
            final(self).cache_view() == old(self).cache_view(),
            r matches Err(e) ==> e is GitFailure,
    {
        if git_fetch(&self.repository, &self.access_token).is_err() {
            return Err(Error::GitFailure(String::from_str("could not update package index")));
        }
        if git_fast_forward(&self.repository).is_err() {
            return Err(Error::GitFailure(String::from_str("could not update package index")));
        }
        Ok(())
    }

    /// Reads `config.json` at the mirror root. Never cached: configuration
    /// reads are rare and cheap, so every call reads fresh.
    pub fn config(&self) -> (r: Result<PackageIndexConfig, Error>)
        ensures
            r matches Ok(c) ==> crate::regurl::url_ok(c.api@),
            r matches Err(e) ==> (e is NotFound || e is Malformed || e is IoFailure),
    {
        let mut config_path = self.path.clone();
        config_path.append("/config.json");
        let contents = match read_file_text(config_path.as_str()) {
            ReadOutcome::Content(contents) => contents,
            ReadOutcome::Missing => {
                let mut msg = String::from_str("no config.json at ");
                msg.append(config_path.as_str());
                return Err(Error::NotFound(msg));
            },
            ReadOutcome::Failed => {
                let mut msg = String::from_str("could not read ");
                msg.append(config_path.as_str());
                return Err(Error::IoFailure(msg));
            },
        };
        match parse_config_text(contents.as_str()) {
            Some(api) => Ok(PackageIndexConfig { api }),
            None => {
                let mut msg = String::from_str("malformed config.json; try deleting ");
                msg.append(config_path.as_str());
                Err(Error::Malformed(msg))
            },
        }
    }

    fn package_path(&self, name: &PackageName) -> (r: String)
        ensures
            r@ == self.path_view() + seq!['/'] + name@.combined(),
    {
        let mut package_path = self.path.clone();
        package_path.append("/");
        let rel = package_rel_path(name);
        package_path.append(rel.as_str());
        proof {
            reveal_strlit("/");
            assert("/"@ =~= seq!['/']);
            assert(package_path@ =~= self.path_view() + seq!['/'] + name@.combined());
        }
        package_path
    }

    /// Publishes a manifest: appends its canonical line to the package's
    /// append-only file beneath the mirror root, commits just that path,
    /// pushes, and on success drops the package's cache entry so that the
    /// next read sees the new version. A push rejected as a non-fast-forward
    /// (another publisher pushed first) is retried after a re-fetch and
    /// rebase, at most twice — three attempts in all, with no backoff;
    /// exhausting them is a `GitFailure`. On any failure the cache is left
    /// untouched.
    ///
    /// This method talks only to the local mirror and the version-control
    /// remote, never to a registry server; it is meant for local registries
    /// and for the registry server itself.
    pub fn publish(&mut self, manifest: &Manifest) -> (r: Result<(), Error>)
        requires
            old(self).wf(),
            manifest@.wf(),
        ensures
            final(self).wf(),
            final(self).url_view() == old(self).url_view(),
            final(self).path_view() == old(self).path_view(),
            r is Ok ==> final(self).cache_view() == old(self).cache_view().remove(
                manifest@.name,
            ),
            r is Err ==> final(self).cache_view() == old(self).cache_view(),
            r matches Err(e) ==> (e is IoFailure || e is GitFailure),
    {
        let package_path = self.package_path(manifest.name());
        let mut parent = self.path.clone();
        parent.append("/");
        parent.append(manifest.name().scope().as_str());
        if ensure_dir(parent.as_str()).is_err() {
            let mut msg = String::from_str("could not create the package directory ");
            msg.append(parent.as_str());
            return Err(Error::IoFailure(msg));
        }
        let mut entry = encode_manifest(manifest);
        entry.append("\n");
        if append_file_text(package_path.as_str(), entry.as_str()).is_err() {
            let mut msg = String::from_str("could not append to ");
            msg.append(package_path.as_str());
            return Err(Error::IoFailure(msg));
        }
        let mut message = String::from_str("Publish ");
        let id = manifest.package_id();
        message.append(id.as_str());
        let rel = package_rel_path(manifest.name());
        if git_stage_path(&self.repository, rel.as_str()).is_err() {
            let mut msg = String::from_str("could not stage ");
            msg.append(rel.as_str());
            return Err(Error::GitFailure(msg));
        }
        if git_commit_staged(&self.repository, message.as_str()).is_err() {
            let mut msg = String::from_str("could not commit ");
            msg.append(id.as_str());
            return Err(Error::GitFailure(msg));
        }
        let refspec = match git_head_ref(&self.repository) {
            Ok(refspec) => refspec,
            Err(_) => {
                let mut msg = String::from_str("could not resolve the mirror's head to push ");
                msg.append(id.as_str());
                return Err(Error::GitFailure(msg));
            },
        };
        let mut attempt: u8 = 0;
        loop
            invariant
                old(self).wf(),
                *self == *old(self),
                attempt <= 2,
            decreases 2 - attempt,
        {
            match git_push_ref(&self.repository, refspec.as_str(), &self.access_token) {
                PushOutcome::Pushed => {
                    break;
                },
                PushOutcome::Rejected => {
                    if attempt >= 2 {
                        let mut msg = String::from_str(
                            "push conflict publishing ",
                        );
                        msg.append(id.as_str());
                        msg.append(": the remote moved on after every retry");
                        return Err(Error::GitFailure(msg));
                    }
                    if git_fetch(&self.repository, &self.access_token).is_err() {
                        let mut msg = String::from_str("could not re-fetch before retrying ");
                        msg.append(id.as_str());
                        return Err(Error::GitFailure(msg));
                    }
                    if git_rebase_onto_fetched(&self.repository).is_err() {
                        let mut msg = String::from_str("could not rebase before retrying ");
                        msg.append(id.as_str());
                        return Err(Error::GitFailure(msg));
                    }
                    attempt += 1;
                },
                PushOutcome::Failed => {
                    let mut msg = String::from_str("could not push ");
                    msg.append(id.as_str());
                    return Err(Error::GitFailure(msg));
                },
            }
        }
        self.package_cache.invalidate(manifest.name());
        Ok(())
    }

    /// Reads the list of versions for a package: the cached snapshot when one
    /// exists, else the package's file beneath the mirror, decoded
    /// all-or-nothing — one corrupt line fails the whole read with
    /// `Malformed` and caches nothing — and cached for every later read.
    pub fn get_package_metadata(&mut self, name: &PackageName) -> (r: Result<
        Arc<PackageMetadata>,
        Error,
    >)
        requires
            old(self).wf(),
        ensures
            final(self).wf(),
            final(self).url_view() == old(self).url_view(),
            final(self).path_view() == old(self).path_view(),
            old(self).cache_view().dom().contains(name@) ==> (r matches Ok(md) && md@ == old(
                self,
            ).cache_view()[name@]),
            r matches Ok(md) ==> wf_all(md@),
            r matches Ok(md) ==> final(self).cache_view() == old(self).cache_view().insert(
                name@,
                md@,
            ),
            r is Err ==> final(self).cache_view() == old(self).cache_view() && !old(
                self,
            ).cache_view().dom().contains(name@),
            r matches Err(e) ==> (e is NotFound || e is Malformed || e is IoFailure),
    {
        let cached = self.package_cache.lookup(name);
        match cached {
            Some(md) => {
                proof {
                    assert(old(self).cache_view().insert(name@, md@) =~= old(self).cache_view());
                }
                Ok(md)
            },
            None => {
                let package_path = self.package_path(name);
                let contents = match read_file_text(package_path.as_str()) {
                    ReadOutcome::Content(contents) => contents,
                    ReadOutcome::Missing => {
                        let mut msg = String::from_str("could not open package ");
                        let rel = package_rel_path(name);
                        msg.append(rel.as_str());
                        msg.append(" from index");
                        return Err(Error::NotFound(msg));
                    },
                    ReadOutcome::Failed => {
                        let mut msg = String::from_str("could not read package ");
                        msg.append(package_path.as_str());
                        return Err(Error::IoFailure(msg));
                    },
                };
                let versions = match parse_package_file(contents.as_str()) {
                    Ok(versions) => versions,
                    Err(e) => {
                        let mut msg = String::from_str("could not parse package index entry: ");
                        msg.append(e.context().as_str());
                        msg.append("; try deleting ");
                        msg.append(package_path.as_str());
                        return Err(Error::Malformed(msg));
                    },
                };
                let metadata = Arc::new(PackageMetadata { versions });
                self.package_cache.store(name, share(&metadata));
                Ok(metadata)
            },
        }
    }
}

} // verus!
