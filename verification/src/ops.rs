//! Mutation operations: staging, unstaging, discarding working changes,
//! and committing the staging snapshot.

use vstd::prelude::*;

use crate::raw;
use crate::repository::open_repository;
use crate::status::collect_status;
use crate::text::blank;
use crate::text::str_is_blank;
use crate::types::GitRepositoryStatus;
use crate::GitError;
use crate::GitResult;

verus! {

/// Adds one path from the working tree to the staging snapshot.
pub fn stage_file(root: &str, path: &str) -> (r: GitResult<()>)
    ensures
        (match r {
            Ok(_) => true,
            Err(e) => e is Git || e is NoRepository,
        }),
{
    let repo = match open_repository(root) {
        Ok(x) => x,
        Err(e) => { return Err(e); },
    };
    let mut ix = match raw::repo_index(&repo) {
        Ok(x) => x,
        Err(e) => { return Err(raw::err_to_git(e)); },
    };
    match raw::index_add_path(&mut ix, path) {
        Ok(_) => {},
        Err(e) => { return Err(raw::err_to_git(e)); },
    }
    match raw::index_write(&mut ix) {
        Ok(_) => Ok(()),
        Err(e) => Err(raw::err_to_git(e)),
    }
}

/// Resets one path's staged entry to match HEAD. In a repository whose
/// HEAD has no commit yet, matching HEAD means removing the entry.
fn reset_path_to_head(repo: &git2::Repository, path: &str) -> (r: GitResult<()>)
    ensures
        (match r {
            Ok(_) => true,
            Err(e) => e is Git,
        }),
{
    let outcome = match raw::repo_head_target(repo) {
        Some(commit) => raw::reset_default_to_commit_one(repo, commit, path),
        None => raw::reset_default_remove_one(repo, path),
    };
    match outcome {
        Ok(_) => Ok(()),
        Err(e) => Err(raw::err_to_git(e)),
    }
}

/// Resets one path's staged entry to HEAD; a no-op for a path with no
/// staged entry.
pub fn unstage_file(root: &str, path: &str) -> (r: GitResult<()>)
    ensures
        (match r {
            Ok(_) => true,
            Err(e) => e is Git || e is NoRepository,
        }),
{
    let repo = match open_repository(root) {
        Ok(x) => x,
        Err(e) => { return Err(e); },
    };
    reset_path_to_head(&repo, path)
}

/// The staged-change count of a snapshot, saturated to the count type.
pub fn staged_len(s: &GitRepositoryStatus) -> (r: u32)
    ensures
        r == (if s@.staged_changes.len() > u32::MAX {
            u32::MAX as int
        } else {
            s@.staged_changes.len() as int
        }),
{
    crate::status::sat_u32(s.staged_changes.len())
}

/// The net count of newly staged paths: the post-stage staged count
/// minus the pre-stage one, never negative.
pub fn net_count(before: u32, after: u32) -> (r: u32)
    ensures
        r == (if after >= before {
            after - before
        } else {
            0int
        }),
{
    if after >= before {
        after - before
    } else {
        0
    }
}

/// The number of staged changes a fresh status query reports, saturated
/// to the count type's range.
fn staged_count(repo: &git2::Repository) -> (r: GitResult<u32>)
    ensures
        (match r {
            Ok(_) => true,
            Err(e) => e is Git || e is NoRepository,
        }),
{
    let wd = match raw::repo_workdir(repo) {
        Some(p) => p,
        None => { return Err(GitError::NoRepository); },
    };
    let status = match collect_status(wd.as_str()) {
        Ok(s) => s,
        Err(e) => { return Err(e); },
    };
    Ok(staged_len(&status))
}

/// Stages every change in the working tree and returns the net count of
/// newly staged paths: the post-stage staged count minus the pre-stage
/// one, never negative.
pub fn stage_all(root: &str) -> (r: GitResult<u32>)
    ensures
        (match r {
            Ok(_) => true,
            Err(e) => e is Git || e is NoRepository,
        }),
{
    let repo = match open_repository(root) {
        Ok(x) => x,
        Err(e) => { return Err(e); },
    };
    let before = match staged_count(&repo) {
        Ok(n) => n,
        Err(e) => { return Err(e); },
    };
    let mut ix = match raw::repo_index(&repo) {
        Ok(x) => x,
        Err(e) => { return Err(raw::err_to_git(e)); },
    };
    match raw::index_add_all(&mut ix) {
        Ok(_) => {},
        Err(e) => { return Err(raw::err_to_git(e)); },
    }
    match raw::index_write(&mut ix) {
        Ok(_) => {},
        Err(e) => { return Err(raw::err_to_git(e)); },
    }
    let after = match staged_count(&repo) {
        Ok(n) => n,
        Err(e) => { return Err(e); },
    };
    Ok(net_count(before, after))
}

/// Resets the whole staging snapshot to HEAD and returns how many staged
/// changes there were before the reset.
pub fn unstage_all(root: &str) -> (r: GitResult<u32>)
    ensures
        (match r {
            Ok(_) => true,
            Err(e) => e is Git || e is NoRepository,
        }),
{
    let repo = match open_repository(root) {
        Ok(x) => x,
        Err(e) => { return Err(e); },
    };
    let before = match staged_count(&repo) {
        Ok(n) => n,
        Err(e) => { return Err(e); },
    };
    match raw::repo_head_target(&repo) {
        Some(commit) => {
            match raw::reset_mixed_to_commit(&repo, commit) {
                Ok(_) => Ok(before),
                Err(e) => Err(raw::err_to_git(e)),
            }
        },
        None => {
            let mut ix = match raw::repo_index(&repo) {
                Ok(x) => x,
                Err(e) => { return Err(raw::err_to_git(e)); },
            };
            match raw::index_clear(&mut ix) {
                Ok(_) => {},
                Err(e) => { return Err(raw::err_to_git(e)); },
            }
            match raw::index_write(&mut ix) {
                Ok(_) => Ok(before),
                Err(e) => Err(raw::err_to_git(e)),
            }
        },
    }
}

/// Discards the listed paths' changes: an untracked path is deleted from
/// the working tree outright; any other path has its staged entry reset
/// to HEAD and its working copy force-overwritten from HEAD. The first
/// failing path aborts the whole batch. Deletions go through the
/// version-control library's checkout machinery, so a failed deletion
/// surfaces as an underlying-library fault rather than a plain
/// filesystem one.
pub fn discard_changes(root: &str, paths: &Vec<String>) -> (r: GitResult<()>)
    ensures
        (match r {
            Ok(_) => true,
            Err(e) => e is Git || e is NoRepository,
        }),
{
    let repo = match open_repository(root) {
        Ok(x) => x,
        Err(e) => { return Err(e); },
    };
    let n = paths.len();
    let mut k: usize = 0;
    while k < n
        invariant
            k <= n,
            n == paths@.len(),
        decreases n - k,
    {
        let path = paths[k].as_str();
        let flags = match raw::status_file_raw(&repo, path) {
            Ok(s) => raw::status_to_flags(s),
            Err(e) => { return Err(raw::err_to_git(e)); },
        };
        if flags.wt_new {
            match raw::checkout_remove_untracked(&repo, path) {
                Ok(_) => {},
                Err(e) => { return Err(raw::err_to_git(e)); },
            }
        } else {
            match reset_path_to_head(&repo, path) {
                Ok(_) => {},
                Err(e) => { return Err(e); },
            }
            match raw::checkout_head_force_path(&repo, path) {
                Ok(_) => {},
                Err(e) => { return Err(raw::err_to_git(e)); },
            }
        }
        k = k + 1;
    }
    Ok(())
}

/// Commits the staging snapshot. A blank message is rejected as invalid
/// input, and so is an empty staging snapshot — read literally as an
/// index with no entries, so in a repository with commits, an index that
/// merely matches HEAD still commits (with an empty change set).
/// Otherwise the staged tree is committed with the repository-configured
/// identity, the current HEAD commit (if any) as sole parent, and the
/// branch advanced. Returns the new commit's forty-digit identifier.
pub fn commit_staged(root: &str, message: &str) -> (r: GitResult<String>)
    ensures
        blank(message@) ==> (r matches Err(e) && e is InvalidInput),
        r is Ok ==> !blank(message@),
        (match r {
            Ok(id) => id@.len() == 40 && (forall|i: int|
                0 <= i < id@.len() ==> crate::raw::hex_digit(#[trigger] id@[i])),
            Err(e) => e is Git || e is NoRepository || e is InvalidInput,
        }),
{
    if str_is_blank(message) {
        return Err(GitError::InvalidInput(String::from_str("Commit message must not be empty")));
    }
    let repo = match open_repository(root) {
        Ok(x) => x,
        Err(e) => { return Err(e); },
    };
    let mut ix = match raw::repo_index(&repo) {
        Ok(x) => x,
        Err(e) => { return Err(raw::err_to_git(e)); },
    };
    if raw::index_is_empty(&ix) {
        return Err(GitError::InvalidInput(String::from_str("No staged changes to commit")));
    }
    let tree_oid = match raw::index_write_tree(&mut ix) {
        Ok(x) => x,
        Err(e) => { return Err(raw::err_to_git(e)); },
    };
    let tree = match raw::repo_find_tree(&repo, tree_oid) {
        Ok(x) => x,
        Err(e) => { return Err(raw::err_to_git(e)); },
    };
    let sig = match raw::repo_signature(&repo) {
        Ok(x) => x,
        Err(e) => { return Err(raw::err_to_git(e)); },
    };
    let commit_oid = match raw::repo_head_target(&repo) {
        Some(parent_oid) => {
            let parent = match raw::repo_find_commit(&repo, parent_oid) {
                Ok(x) => x,
                Err(e) => { return Err(raw::err_to_git(e)); },
            };
            match raw::create_commit_on_head(&repo, &sig, message, &tree, Some(&parent)) {
                Ok(x) => x,
                Err(e) => { return Err(raw::err_to_git(e)); },
            }
        },
        None => {
            match raw::create_commit_on_head(&repo, &sig, message, &tree, None) {
                Ok(x) => x,
                Err(e) => { return Err(raw::err_to_git(e)); },
            }
        },
    };
    Ok(raw::oid_hex(&commit_oid))
}

} // verus!
