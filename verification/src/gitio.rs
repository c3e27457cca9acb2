//! Trusted declarations for the git library and the filesystem probes that
//! the checkout manager and the repository handle rely on.
//!
//! Every contract here states only what holds of every outcome: clones,
//! fetches and resets depend on the network and the disk, so the verified
//! callers decide from the returned values alone. Errors are handed back
//! as their textual diagnostics.

use vstd::prelude::*;

verus! {

#[verifier::external_type_specification]
#[verifier::external_body]
pub struct ExGitRepository(git2::Repository);

/// Relies on std::path::Path::is_dir: whether the path names an existing
/// directory on disk. The answer depends on the disk alone.
#[verifier::external_body]
pub(crate) fn path_is_dir(p: &str) -> bool {
    std::path::Path::new(p).is_dir()
}

/// Relies on std::path::Path::exists: whether the path names anything on
/// disk. The answer depends on the disk alone.
#[verifier::external_body]
pub(crate) fn path_exists(p: &str) -> bool {
    std::path::Path::new(p).exists()
}

/// Relies on std::path::Path::canonicalize: the absolute, symlink-free
/// form of the path, or None if resolution fails. Depends on the disk.
#[verifier::external_body]
pub(crate) fn canonicalize_path(p: &str) -> Option<String> {
    match std::path::Path::new(p).canonicalize() {
        Ok(abs) => Some(abs.to_string_lossy().into_owned()),
        Err(_) => None,
    }
}

/// Relies on git2::Repository::open: opens an existing repository at the
/// given directory.
#[verifier::external_body]
pub(crate) fn git_open(dir: &str) -> Result<git2::Repository, String> {
    git2::Repository::open(dir).map_err(|e| String::from(e.message()))
}

/// Relies on git2::build::RepoBuilder::clone: clones the repository at
/// `url` into `dir`, checking out with untracked and ignored files
/// removed and overwrites forced.
#[verifier::external_body]
pub(crate) fn git_clone(url: &str, dir: &str) -> Result<git2::Repository, String> {
    let mut checkout = git2::build::CheckoutBuilder::new();
    checkout.remove_untracked(true).remove_ignored(true).force();
    git2::build::RepoBuilder::new().with_checkout(checkout).clone(
        url,
        std::path::Path::new(dir),
    ).map_err(|e| String::from(e.message()))
}

/// Relies on git2::Remote::fetch: fetches the given refspec from the
/// `origin` remote without credentials.
#[verifier::external_body]
pub(crate) fn git_fetch_origin(repo: &git2::Repository, refspec: &str) -> Result<(), String> {
    repo.find_remote("origin").and_then(|mut remote| remote.fetch(&[refspec], None, None)).map_err(
        |e| String::from(e.message()),
    )
}

/// Relies on git2::Remote::fetch: fetches the given refspec from the
/// `origin` remote, offering the token as an HTTPS password under the
/// fixed user `x-access-token`.
#[verifier::external_body]
pub(crate) fn git_fetch_origin_with_token(
    repo: &git2::Repository,
    refspec: &str,
    token: &str,
) -> Result<(), String> {
    let mut remote = repo.find_remote("origin").map_err(|e| String::from(e.message()))?;
    let token = String::from(token);
    let mut callbacks = git2::RemoteCallbacks::new();
    callbacks.credentials(move |_url, _user, _allowed| {
        git2::Cred::userpass_plaintext("x-access-token", &token)
    });
    let mut options = git2::FetchOptions::new();
    options.remote_callbacks(callbacks);
    remote.fetch(&[refspec], Some(&mut options), None).map_err(|e| String::from(e.message()))
}

/// Relies on git2::Repository::reset: resolves the revision and
/// hard-resets the working tree to it, removing untracked and ignored
/// files and forcing overwrites.
#[verifier::external_body]
pub(crate) fn git_reset_hard(repo: &git2::Repository, rev: &str) -> Result<(), String> {
    let obj = repo.revparse_single(rev).map_err(|e| String::from(e.message()))?;
    let mut checkout = git2::build::CheckoutBuilder::new();
    checkout.remove_untracked(true).remove_ignored(true).force();
    repo.reset(&obj, git2::ResetType::Hard, Some(&mut checkout)).map_err(
        |e| String::from(e.message()),
    )
}

/// Relies on git2::Index::add_path: stages the repo-relative path into
/// the index and writes the index out.
#[verifier::external_body]
pub(crate) fn git_add_path(repo: &git2::Repository, path: &str) -> Result<(), String> {
    let res = repo.index().and_then(|mut index| {
        index.add_path(std::path::Path::new(path))?;
        index.write()
    });
    res.map_err(|e| String::from(e.message()))
}

/// Relies on git2::Repository::commit: snapshots the index into a tree
/// and commits it onto HEAD with the given identity and message.
#[verifier::external_body]
pub(crate) fn git_commit_head(
    repo: &git2::Repository,
    name: &str,
    email: &str,
    message: &str,
) -> Result<(), String> {
    let res = (|| -> Result<(), git2::Error> {
        let signature = git2::Signature::now(name, email)?;
        let parent = repo.revparse_single("HEAD")?.peel_to_commit()?;
        let mut index = repo.index()?;
        let oid = index.write_tree()?;
        let tree = repo.find_tree(oid)?;
        repo.commit(Some("HEAD"), &signature, &signature, message, &tree, &[&parent])?;
        Ok(())
    })();
    res.map_err(|e| String::from(e.message()))
}

/// Relies on git2::Repository::branch: points the named local branch at
/// the commit that the target revision resolves to.
#[verifier::external_body]
pub(crate) fn git_branch_at(
    repo: &git2::Repository,
    name: &str,
    target: &str,
    force: bool,
) -> Result<(), String> {
    let res = repo.revparse_single(target).and_then(|obj| obj.peel_to_commit()).and_then(
        |commit| repo.branch(name, &commit, force).map(|_| ()),
    );
    res.map_err(|e| String::from(e.message()))
}

/// Relies on git2::Statuses: one `(path, status bits)` pair per entry of
/// the repository's status list, entries without a UTF-8 path skipped.
/// The bits are the raw git status flags; the snapshot depends on the
/// working tree at the moment of the call.
#[verifier::external_body]
pub(crate) fn git_statuses(
    repo: &git2::Repository,
    with_unmodified: bool,
) -> Result<Vec<(String, u32)>, String> {
    let mut opts = git2::StatusOptions::default();
    opts.include_unmodified(with_unmodified);
    let statuses = repo.statuses(Some(&mut opts)).map_err(|e| String::from(e.message()))?;
    Ok(
        statuses.iter().filter_map(
            |entry| entry.path().ok().map(|p| (String::from(p), entry.status().bits())),
        ).collect(),
    )
}

/// Relies on git2::Remote::push: pushes the refspec to `origin`, offering
/// the token as an HTTPS password under the fixed user `x-access-token`.
#[verifier::external_body]
pub(crate) fn git_push_with_token(
    repo: &git2::Repository,
    refspec: &str,
    token: &str,
) -> Result<(), String> {
    let mut remote = repo.find_remote("origin").map_err(|e| String::from(e.message()))?;
    let token = String::from(token);
    let mut callbacks = git2::RemoteCallbacks::new();
    callbacks.credentials(move |_url, _user, _allowed| {
        git2::Cred::userpass_plaintext("x-access-token", &token)
    });
    let mut options = git2::PushOptions::new();
    options.remote_callbacks(callbacks);
    remote.push(&[refspec], Some(&mut options)).map_err(|e| String::from(e.message()))
}

} // verus!
