//! Repository discovery, initialization and opening.

use vstd::prelude::*;

use crate::raw;
use crate::GitError;
use crate::GitResult;

verus! {

/// Finds the repository containing `root`, walking up the directory
/// tree. Reports the working-directory path when one is found, nothing
/// when no repository exists there, and an error for any other fault.
pub fn detect_repository(root: &str) -> (r: GitResult<Option<String>>)
    ensures
        (match r {
            Ok(_) => true,
            Err(e) => e is Git,
        }),
{
    match raw::repo_discover(root) {
        Ok(repo) => Ok(raw::repo_workdir(&repo)),
        Err(e) => {
            if raw::err_is_not_found(&e) {
                Ok(None)
            } else {
                Err(raw::err_to_git(e))
            }
        },
    }
}

/// Creates a repository at `root` with `main` as its initial branch and
/// reports its working-directory path. A repository without one is
/// reported as unavailable.
pub fn init_repository(root: &str) -> (r: GitResult<String>)
    ensures
        (match r {
            Ok(_) => true,
            Err(e) => e is Git || e is NoRepository,
        }),
{
    match raw::repo_init(root) {
        Ok(repo) => {
            match raw::repo_workdir(&repo) {
                Some(p) => Ok(p),
                None => Err(GitError::NoRepository),
            }
        },
        Err(e) => Err(raw::err_to_git(e)),
    }
}

/// Opens the repository whose working directory is exactly `root`. A
/// root that is not a valid repository is reported as unavailable; any
/// other fault is passed through.
pub fn open_repository(root: &str) -> (r: GitResult<git2::Repository>)
    ensures
        (match r {
            Ok(_) => true,
            Err(e) => e is Git || e is NoRepository,
        }),
{
    match raw::repo_open(root) {
        Ok(repo) => Ok(repo),
        Err(e) => {
            if raw::err_is_not_found(&e) {
                Err(GitError::NoRepository)
            } else {
                Err(raw::err_to_git(e))
            }
        },
    }
}

} // verus!
