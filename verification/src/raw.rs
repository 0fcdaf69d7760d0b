//! Trusted bindings to the underlying version-control library.
//!
//! Every item here is believed, not verified: each wrapper's body makes
//! one outside call (or a short chain of them) and converts the result to
//! plain values. Nothing is promised of repository or filesystem state;
//! the verified callers state what holds of every outcome.

use vstd::prelude::*;

use crate::history::CommitRaw;
use crate::status::StatusFlags;
use crate::GitError;

verus! {

#[verifier::external_type_specification]
#[verifier::external_body]
pub struct ExRepository(git2::Repository);

#[verifier::external_type_specification]
#[verifier::external_body]
pub struct ExError(git2::Error);

#[verifier::external_type_specification]
#[verifier::external_body]
pub struct ExOid(git2::Oid);

#[verifier::external_type_specification]
#[verifier::external_body]
pub struct ExStatus(git2::Status);

#[verifier::external_type_specification]
#[verifier::external_body]
pub struct ExStatuses<'repo>(git2::Statuses<'repo>);

#[verifier::external_type_specification]
#[verifier::external_body]
pub struct ExStatusEntry<'statuses>(git2::StatusEntry<'statuses>);

#[verifier::external_type_specification]
#[verifier::external_body]
pub struct ExIndex(git2::Index);

#[verifier::external_type_specification]
#[verifier::external_body]
pub struct ExTree<'repo>(git2::Tree<'repo>);

#[verifier::external_type_specification]
#[verifier::external_body]
pub struct ExCommit<'repo>(git2::Commit<'repo>);

#[verifier::external_type_specification]
#[verifier::external_body]
pub struct ExSignature<'a>(git2::Signature<'a>);

#[verifier::external_type_specification]
#[verifier::external_body]
pub struct ExRevwalk<'repo>(git2::Revwalk<'repo>);

/// Relies on `git2::Error::message`: carries the fault text into the
/// engine's error type.
#[verifier::external_body]
pub(crate) fn err_to_git(e: git2::Error) -> (r: GitError)
    ensures
        r is Git,
{
    GitError::Git(e.message().to_string())
}

/// Relies on `git2::Error::class` and `git2::Error::code`: tells the
/// "no repository found" outcome of discovery apart from real faults.
#[verifier::external_body]
pub(crate) fn err_is_not_found(e: &git2::Error) -> bool {
    e.class() == git2::ErrorClass::Repository && e.code() == git2::ErrorCode::NotFound
}

/// Relies on `git2::Repository::open`.
#[verifier::external_body]
pub(crate) fn repo_open(root: &str) -> Result<git2::Repository, git2::Error> {
    git2::Repository::open(root)
}

/// Relies on `git2::Repository::discover`: walks up from `root` looking
/// for a repository.
#[verifier::external_body]
pub(crate) fn repo_discover(root: &str) -> Result<git2::Repository, git2::Error> {
    git2::Repository::discover(root)
}

/// Relies on `git2::Repository::init_opts` with `main` as initial head.
#[verifier::external_body]
pub(crate) fn repo_init(root: &str) -> Result<git2::Repository, git2::Error> {
    let mut opts = git2::RepositoryInitOptions::new();
    opts.initial_head("main");
    git2::Repository::init_opts(root, &opts)
}

/// Relies on `git2::Repository::workdir`: the working-directory path of a
/// non-bare repository, lossily decoded.
#[verifier::external_body]
pub(crate) fn repo_workdir(repo: &git2::Repository) -> Option<String> {
    match repo.workdir() {
        Some(p) => Some(p.to_string_lossy().into_owned()),
        None => None,
    }
}

/// Relies on `git2::Repository::head`, `Reference::is_branch` and
/// `Reference::shorthand`: whether HEAD is a branch, and its short name
/// where that name is valid UTF-8.
#[verifier::external_body]
pub(crate) fn head_info_raw(repo: &git2::Repository) -> crate::status::HeadInfo {
    match repo.head() {
        Ok(h) => {
            if h.is_branch() {
                crate::status::HeadInfo::Branch(h.shorthand().ok().map(|s| s.to_string()))
            } else {
                crate::status::HeadInfo::Detached
            }
        },
        Err(_) => crate::status::HeadInfo::Detached,
    }
}

/// Relies on `git2::Repository::head`, `Branch::wrap` and
/// `Branch::upstream`: the HEAD commit id and the configured upstream's
/// commit id, where both exist.
#[verifier::external_body]
pub(crate) fn head_upstream_oids(repo: &git2::Repository) -> Option<(git2::Oid, git2::Oid)> {
    let head = repo.head().ok()?;
    let local = head.target();
    let upstream = git2::Branch::wrap(head).upstream().ok()?;
    let up = upstream.into_reference().target();
    match (local, up) {
        (Some(l), Some(u)) => Some((l, u)),
        _ => None,
    }
}

/// Relies on `git2::Repository::graph_ahead_behind`: how many commits
/// each side has beyond the other.
#[verifier::external_body]
pub(crate) fn graph_ahead_behind_raw(
    repo: &git2::Repository,
    local: git2::Oid,
    upstream: git2::Oid,
) -> Result<(usize, usize), git2::Error> {
    repo.graph_ahead_behind(local, upstream)
}

/// Relies on `git2::Repository::statuses` with the engine's fixed query:
/// include untracked files and recurse their directories, detect renames
/// for both comparisons, show index and workdir.
#[verifier::external_body]
pub(crate) fn repo_statuses<'repo>(repo: &'repo git2::Repository) -> Result<
    git2::Statuses<'repo>,
    git2::Error,
> {
    let mut opts = git2::StatusOptions::new();
    opts.include_untracked(true)
        .recurse_untracked_dirs(true)
        .renames_head_to_index(true)
        .renames_index_to_workdir(true)
        .show(git2::StatusShow::IndexAndWorkdir);
    repo.statuses(Some(&mut opts))
}

/// Relies on `git2::Statuses::len`.
#[verifier::external_body]
pub(crate) fn statuses_len(s: &git2::Statuses<'_>) -> usize {
    s.len()
}

/// Relies on `git2::Statuses::get`.
#[verifier::external_body]
pub(crate) fn statuses_get<'s>(s: &'s git2::Statuses<'_>, i: usize) -> Option<
    git2::StatusEntry<'s>,
> {
    s.get(i)
}

/// Relies on `git2::StatusEntry::status`.
#[verifier::external_body]
pub(crate) fn entry_status(e: &git2::StatusEntry<'_>) -> git2::Status {
    e.status()
}

/// Relies on the `git2::Status` bit tests: one boolean per documented
/// status bit.
#[verifier::external_body]
pub(crate) fn status_to_flags(s: git2::Status) -> StatusFlags {
    StatusFlags {
        index_new: s.is_index_new(),
        index_modified: s.is_index_modified(),
        index_deleted: s.is_index_deleted(),
        index_renamed: s.is_index_renamed(),
        wt_new: s.is_wt_new(),
        wt_modified: s.is_wt_modified(),
        wt_deleted: s.is_wt_deleted(),
        wt_renamed: s.is_wt_renamed(),
        conflicted: s.is_conflicted(),
    }
}

/// Relies on `git2::StatusEntry::path`: the entry's path where it is
/// valid UTF-8.
#[verifier::external_body]
pub(crate) fn entry_path(e: &git2::StatusEntry<'_>) -> Option<String> {
    e.path().ok().map(|p| p.to_string())
}

/// Relies on `git2::StatusEntry::head_to_index`: the source path of an
/// index-side rename delta.
#[verifier::external_body]
pub(crate) fn entry_head_rename(e: &git2::StatusEntry<'_>) -> Option<String> {
    e.head_to_index().and_then(|d| d.old_file().path().and_then(|p| p.to_str()).map(|s|
        s.to_string()))
}

/// Relies on `git2::StatusEntry::index_to_workdir`: the source path of a
/// workdir-side rename delta.
#[verifier::external_body]
pub(crate) fn entry_wt_rename(e: &git2::StatusEntry<'_>) -> Option<String> {
    e.index_to_workdir().and_then(|d| d.old_file().path().and_then(|p| p.to_str()).map(|s|
        s.to_string()))
}

/// Relies on `git2::Repository::status_file`: the status bits of one
/// path.
#[verifier::external_body]
pub(crate) fn status_file_raw(repo: &git2::Repository, path: &str) -> Result<
    git2::Status,
    git2::Error,
> {
    repo.status_file(std::path::Path::new(path))
}

/// Relies on `git2::Repository::index`.
#[verifier::external_body]
pub(crate) fn repo_index(repo: &git2::Repository) -> Result<git2::Index, git2::Error> {
    repo.index()
}

/// Relies on `git2::Index::add_path`: stages one path from the working
/// tree.
#[verifier::external_body]
pub(crate) fn index_add_path(ix: &mut git2::Index, path: &str) -> Result<(), git2::Error> {
    ix.add_path(std::path::Path::new(path))
}

/// Relies on `git2::Index::add_all` over the whole tree.
#[verifier::external_body]
pub(crate) fn index_add_all(ix: &mut git2::Index) -> Result<(), git2::Error> {
    ix.add_all(["*"], git2::IndexAddOption::DEFAULT, None)
}

/// Relies on `git2::Index::write`: persists the staging snapshot.
#[verifier::external_body]
pub(crate) fn index_write(ix: &mut git2::Index) -> Result<(), git2::Error> {
    ix.write()
}

/// Relies on `git2::Index::is_empty`.
#[verifier::external_body]
pub(crate) fn index_is_empty(ix: &git2::Index) -> bool {
    ix.is_empty()
}

/// Relies on `git2::Index::write_tree`: writes the staged content as a
/// tree and returns its id.
#[verifier::external_body]
pub(crate) fn index_write_tree(ix: &mut git2::Index) -> Result<git2::Oid, git2::Error> {
    ix.write_tree()
}

/// Relies on `git2::Repository::reset_default` against the given commit:
/// resets the matching path's staged entry to that commit's tree.
#[verifier::external_body]
pub(crate) fn reset_default_to_commit_one(
    repo: &git2::Repository,
    commit: git2::Oid,
    path: &str,
) -> Result<(), git2::Error> {
    let obj = repo.find_object(commit, None)?;
    repo.reset_default(Some(&obj), [std::path::Path::new(path)])
}

/// Relies on `git2::Repository::reset_default` with no target: removes
/// the matching path's entry from the staging snapshot, which matches a
/// HEAD that has no commit yet.
#[verifier::external_body]
pub(crate) fn reset_default_remove_one(repo: &git2::Repository, path: &str) -> Result<
    (),
    git2::Error,
> {
    repo.reset_default(None, [std::path::Path::new(path)])
}

/// Relies on `git2::Repository::reset` with the mixed kind: moves the
/// whole staging snapshot to the given commit's tree, leaving the
/// working directory alone.
#[verifier::external_body]
pub(crate) fn reset_mixed_to_commit(repo: &git2::Repository, commit: git2::Oid) -> Result<
    (),
    git2::Error,
> {
    let obj = repo.find_object(commit, None)?;
    repo.reset(&obj, git2::ResetType::Mixed, None)
}

/// Relies on `git2::Index::clear`: empties the in-memory staging
/// snapshot, which matches a HEAD that has no commit yet.
#[verifier::external_body]
pub(crate) fn index_clear(ix: &mut git2::Index) -> Result<(), git2::Error> {
    ix.clear()
}

/// Relies on `git2::Repository::checkout_head` with force on one path:
/// overwrites the working copy of that path from HEAD.
#[verifier::external_body]
pub(crate) fn checkout_head_force_path(repo: &git2::Repository, path: &str) -> Result<
    (),
    git2::Error,
> {
    let mut cb = git2::build::CheckoutBuilder::new();
    cb.path(path).force();
    repo.checkout_head(Some(&mut cb))
}

/// Relies on `git2::Repository::checkout_head` with force and
/// remove-untracked on one path: deletes the untracked working-tree
/// content that the path spec covers.
#[verifier::external_body]
pub(crate) fn checkout_remove_untracked(repo: &git2::Repository, path: &str) -> Result<
    (),
    git2::Error,
> {
    let mut cb = git2::build::CheckoutBuilder::new();
    cb.path(path).force().remove_untracked(true);
    repo.checkout_head(Some(&mut cb))
}

/// Relies on `git2::Repository::signature`: the repository-configured
/// identity.
#[verifier::external_body]
pub(crate) fn repo_signature(repo: &git2::Repository) -> Result<
    git2::Signature<'static>,
    git2::Error,
> {
    repo.signature()
}

/// Relies on `git2::Repository::head` and `Reference::target`: the commit
/// id HEAD points at, if any.
#[verifier::external_body]
pub(crate) fn repo_head_target(repo: &git2::Repository) -> Option<git2::Oid> {
    repo.head().ok().and_then(|h| h.target())
}

/// Relies on `git2::Repository::find_commit`.
#[verifier::external_body]
pub(crate) fn repo_find_commit<'r>(repo: &'r git2::Repository, oid: git2::Oid) -> Result<
    git2::Commit<'r>,
    git2::Error,
> {
    repo.find_commit(oid)
}

/// Relies on `git2::Repository::find_tree`.
#[verifier::external_body]
pub(crate) fn repo_find_tree<'r>(repo: &'r git2::Repository, oid: git2::Oid) -> Result<
    git2::Tree<'r>,
    git2::Error,
> {
    repo.find_tree(oid)
}

/// Relies on `git2::Repository::commit` on `HEAD`: creates a commit from
/// the given tree with the given parent (or none, for a root commit) and
/// advances the current branch to it.
#[verifier::external_body]
pub(crate) fn create_commit_on_head(
    repo: &git2::Repository,
    sig: &git2::Signature<'_>,
    message: &str,
    tree: &git2::Tree<'_>,
    parent: Option<&git2::Commit<'_>>,
) -> Result<git2::Oid, git2::Error> {
    match parent {
        Some(p) => repo.commit(Some("HEAD"), sig, sig, message, tree, &[p]),
        None => repo.commit(Some("HEAD"), sig, sig, message, tree, &[]),
    }
}

/// A lowercase hexadecimal digit.
pub open spec fn hex_digit(c: char) -> bool {
    let u = c as u32;
    (0x30 <= u && u <= 0x39) || (0x61 <= u && u <= 0x66)
}

/// Relies on `git2::Oid`'s hex formatting: exactly forty lowercase hex
/// digits, two per raw byte.
#[verifier::external_body]
pub(crate) fn oid_hex(oid: &git2::Oid) -> (r: String)
    ensures
        r@.len() == 40,
        forall|i: int| 0 <= i < r@.len() ==> hex_digit(#[trigger] r@[i]),
{
    oid.to_string()
}

/// Relies on `git2::Repository::revwalk`, `Revwalk::push_head` and
/// `Revwalk::set_sorting`: a walk over history from HEAD, oldest first by
/// commit time. Reports nothing (no walk) when HEAD cannot be pushed,
/// e.g. in an empty repository.
#[verifier::external_body]
pub(crate) fn history_walk<'r>(repo: &'r git2::Repository) -> Result<
    Option<git2::Revwalk<'r>>,
    git2::Error,
> {
    let mut w = repo.revwalk()?;
    if w.push_head().is_err() {
        return Ok(None);
    }
    w.set_sorting(git2::Sort::TIME | git2::Sort::REVERSE)?;
    Ok(Some(w))
}

/// Relies on `git2::Revwalk`'s iteration: the next commit id, with an
/// unresolvable item reported as an empty slot to be skipped.
#[verifier::external_body]
pub(crate) fn revwalk_next(w: &mut git2::Revwalk<'_>) -> Option<Option<git2::Oid>> {
    match w.next() {
        None => None,
        Some(Ok(oid)) => Some(Some(oid)),
        Some(Err(_)) => Some(None),
    }
}

/// Relies on `git2::Repository::find_commit` and the commit accessors
/// `id`, `summary`, `author`, `time` and `parent_ids`: the commit's
/// fields as plain values, or nothing when the id cannot be resolved.
#[verifier::external_body]
pub(crate) fn find_commit_raw(repo: &git2::Repository, oid: git2::Oid) -> Option<CommitRaw> {
    let c = repo.find_commit(oid).ok()?;
    let mut parents: Vec<String> = Vec::new();
    for p in c.parent_ids() {
        parents.push(p.to_string());
    }
    let author = c.author();
    let record = CommitRaw {
        hash: c.id().to_string(),
        summary: c.summary().ok().flatten().map(|s| s.to_string()),
        author_name: author.name().ok().map(|s| s.to_string()),
        author_email: author.email().ok().map(|s| s.to_string()),
        time_secs: c.time().seconds(),
        parents,
    };
    Some(record)
}

/// Relies on `git2::Repository::head`, `Reference::peel_to_tree`,
/// `Tree::get_path` and `Repository::find_blob`: the raw bytes of a path
/// in the committed tree, or nothing where the path is absent there.
#[verifier::external_body]
pub(crate) fn read_head_bytes(repo: &git2::Repository, path: &str) -> Option<Vec<u8>> {
    let head = repo.head().ok()?;
    let tree = head.peel_to_tree().ok()?;
    let entry = tree.get_path(std::path::Path::new(path)).ok()?;
    let blob = repo.find_blob(entry.id()).ok()?;
    Some(blob.content().to_vec())
}

/// Relies on `git2::Repository::index`, `Index::get_path` and
/// `Repository::find_blob`: the raw bytes of a path in the staging
/// snapshot, or nothing where the path is absent there.
#[verifier::external_body]
pub(crate) fn read_index_bytes(repo: &git2::Repository, path: &str) -> Option<Vec<u8>> {
    let ix = repo.index().ok()?;
    let entry = ix.get_path(std::path::Path::new(path), 0)?;
    let blob = repo.find_blob(entry.id).ok()?;
    Some(blob.content().to_vec())
}

/// Relies on `git2::Repository::workdir`, `Repository::blob_path` and
/// `Repository::find_blob`: the bytes of a working-directory path, read
/// from disk through the object store, or nothing where the path cannot
/// be read. The read goes through blob creation, so it applies any
/// configured check-in content filters and leaves a loose object behind;
/// with no filters configured it returns the file's literal bytes.
#[verifier::external_body]
pub(crate) fn read_workdir_bytes(repo: &git2::Repository, path: &str) -> Option<Vec<u8>> {
    let abs = repo.workdir()?.join(path);
    let oid = repo.blob_path(&abs).ok()?;
    let blob = repo.find_blob(oid).ok()?;
    Some(blob.content().to_vec())
}

} // verus!
