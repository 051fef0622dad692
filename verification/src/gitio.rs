//! Trusted wrappers around the version-control client. Every operation here
//! touches the network or the working tree, so the contracts state nothing of
//! what comes back; the verified orchestration in the index states what it
//! does with every outcome. The push wrapper does tell a rejected
//! non-fast-forward push apart from any other failure: that distinction
//! drives the bounded publish retry.

use vstd::prelude::*;

verus! {

#[verifier::external_type_specification]
#[verifier::external_body]
pub struct ExRepository(git2::Repository);

#[verifier::external_type_specification]
#[verifier::external_body]
pub struct ExTempDir(tempfile::TempDir);

/// How a push ended.
pub enum PushOutcome {
    /// The remote accepted the push.
    Pushed,
    /// The remote rejected it as a non-fast-forward: another publisher pushed
    /// first.
    Rejected,
    /// The push failed for another reason.
    Failed,
}

/// Relies on git2::Repository::open.
#[verifier::external_body]
pub(crate) fn git_open(path: &str) -> (r: Result<git2::Repository, ()>) {
    git2::Repository::open(path).map_err(|_| ())
}

/// Relies on git2::build::RepoBuilder::clone, with
/// git2::Cred::userpass_plaintext carrying the access token when one is
/// given.
#[verifier::external_body]
pub(crate) fn git_clone(url: &str, path: &str, token: &Option<String>) -> (r: Result<
    git2::Repository,
    (),
>) {
    let mut callbacks = git2::RemoteCallbacks::new();
    if let Some(token) = token {
        let token = token.clone();
        callbacks.credentials(move |_, _, _| git2::Cred::userpass_plaintext(&token, ""));
    }
    let mut options = git2::FetchOptions::new();
    options.remote_callbacks(callbacks);
    let mut builder = git2::build::RepoBuilder::new();
    builder.fetch_options(options);
    builder.clone(url, std::path::Path::new(path)).map_err(|_| ())
}

/// Relies on git2::Remote::fetch on the `origin` remote's configured
/// refspecs, with git2::Cred::userpass_plaintext carrying the access token
/// when one is given.
#[verifier::external_body]
pub(crate) fn git_fetch(repo: &git2::Repository, token: &Option<String>) -> (r: Result<(), ()>) {
    let mut callbacks = git2::RemoteCallbacks::new();
    if let Some(token) = token {
        let token = token.clone();
        callbacks.credentials(move |_, _, _| git2::Cred::userpass_plaintext(&token, ""));
    }
    let mut options = git2::FetchOptions::new();
    options.remote_callbacks(callbacks);
    let mut remote = repo.find_remote("origin").map_err(|_| ())?;
    remote.fetch(&[] as &[&str], Some(&mut options), None).map_err(|_| ())
}

/// Relies on git2::Reference::set_target and git2::Repository::checkout_head:
/// moves the local head to what the last fetch brought and makes the working
/// tree match it.
#[verifier::external_body]
pub(crate) fn git_fast_forward(repo: &git2::Repository) -> (r: Result<(), ()>) {
    let fetched = repo.find_reference("FETCH_HEAD").map_err(|_| ())?;
    let target = fetched.target().ok_or(())?;
    let mut head = repo.head().map_err(|_| ())?;
    head.set_target(target, "fast-forward").map_err(|_| ())?;
    let mut checkout = git2::build::CheckoutBuilder::new();
    checkout.force();
    repo.checkout_head(Some(&mut checkout)).map_err(|_| ())
}

/// Relies on git2::Index::add_path: stages the one relative path.
#[verifier::external_body]
pub(crate) fn git_stage_path(repo: &git2::Repository, rel_path: &str) -> (r: Result<(), ()>) {
    let mut index = repo.index().map_err(|_| ())?;
    index.add_path(std::path::Path::new(rel_path)).map_err(|_| ())?;
    index.write().map_err(|_| ())
}

/// Relies on git2::Repository::commit: commits what is staged on the current
/// head with the given message, under the repository's configured identity or
/// a fixed fallback.
#[verifier::external_body]
pub(crate) fn git_commit_staged(repo: &git2::Repository, message: &str) -> (r: Result<(), ()>) {
    let tree_id = repo.index().and_then(|mut i| i.write_tree()).map_err(|_| ())?;
    let tree = repo.find_tree(tree_id).map_err(|_| ())?;
    let signature = match repo.signature() {
        Ok(s) => s,
        Err(_) => git2::Signature::now("wally", "wally@localhost").map_err(|_| ())?,
    };
    let parent = repo.head().and_then(|h| h.peel_to_commit()).map_err(|_| ())?;
    repo.commit(Some("HEAD"), &signature, &signature, message, &tree, &[&parent]).map_err(|_| ())?;
    Ok(())
}

/// Relies on git2::Repository::head and git2::Reference::name: the full name
/// of the reference the head points at.
#[verifier::external_body]
pub(crate) fn git_head_ref(repo: &git2::Repository) -> (r: Result<String, ()>) {
    let head = repo.head().map_err(|_| ())?;
    let name = head.name().map_err(|_| ())?;
    Ok(name.to_owned())
}

/// Relies on git2::Remote::push of the given refspec, with
/// git2::Cred::userpass_plaintext carrying the access token when one is
/// given, and on git2::Error::code to tell a rejected non-fast-forward push
/// apart from any other failure.
#[verifier::external_body]
pub(crate) fn git_push_ref(repo: &git2::Repository, refspec: &str, token: &Option<String>) -> (r:
    PushOutcome) {
    let mut callbacks = git2::RemoteCallbacks::new();
    if let Some(token) = token.clone() {
        callbacks.credentials(move |_, _, _| git2::Cred::userpass_plaintext(&token, ""));
    }
    let mut options = git2::PushOptions::new();
    options.remote_callbacks(callbacks);
    let mut remote = match repo.find_remote("origin") {
        Ok(remote) => remote,
        Err(_) => return PushOutcome::Failed,
    };
    match remote.push(&[refspec], Some(&mut options)) {
        Ok(()) => PushOutcome::Pushed,
        Err(e) if e.code() == git2::ErrorCode::NotFastForward => PushOutcome::Rejected,
        Err(_) => PushOutcome::Failed,
    }
}

/// Relies on git2::Repository::rebase: replays the local head's commits onto
/// what the last fetch brought, committing each replayed change (the original
/// authors stay; a fixed committer signs the replays).
#[verifier::external_body]
pub(crate) fn git_rebase_onto_fetched(repo: &git2::Repository) -> (r: Result<(), ()>) {
    let fetched = repo.find_reference("FETCH_HEAD").map_err(|_| ())?;
    let onto = repo.reference_to_annotated_commit(&fetched).map_err(|_| ())?;
    let current = repo.head().and_then(|h| repo.reference_to_annotated_commit(&h)).map_err(|_| ())?;
    let signature = git2::Signature::now("wally", "wally@localhost").map_err(|_| ())?;
    let mut rebase = repo.rebase(Some(&current), Some(&onto), None, None).map_err(|_| ())?;
    while let Some(op) = rebase.next() {
        op.map_err(|_| ())?;
        rebase.commit(None, &signature, None).map_err(|_| ())?;
    }
    rebase.finish(None).map_err(|_| ())
}

/// Relies on tempfile::tempdir and TempDir::path: a fresh directory that
/// lives while its handle does.
#[verifier::external_body]
pub(crate) fn make_temp_dir() -> (r: Result<(tempfile::TempDir, String), ()>) {
    let dir = tempfile::tempdir().map_err(|_| ())?;
    let path = dir.path().to_string_lossy().into_owned();
    Ok((dir, path))
}

} // verus!
