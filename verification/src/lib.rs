//! A verified repository-state tracking engine.
//!
//! The crate keeps a cached view of a git working tree's status (staged,
//! unstaged and untracked changes, branch identity, ahead/behind counts),
//! builds per-path diffs between the committed tree, the index and the
//! working directory, and exposes the staging, commit and history
//! operations that maintain that view.

use vstd::prelude::*;

pub mod diff;
pub mod history;
pub mod ops;
pub mod raw;
pub mod repository;
pub mod state;
pub mod status;
pub mod text;
pub mod types;

verus! {

/// Result alias used by every repository operation.
pub type GitResult<T> = Result<T, GitError>;

/// The error taxonomy of the engine.
///
/// `NoRepository`: an operation needed a tracked repository root and none
/// was available. `Git`: the underlying version-control library reported a
/// fault. `Io`: a plain filesystem failure outside the repository store.
/// `InvalidInput`: a precondition violation such as an empty commit
/// message. `Notify`: the filesystem watcher could not be armed.
#[derive(Debug, Clone, PartialEq, Eq)]
pub enum GitError {
    NoRepository,
    Git(String),
    Io(String),
    InvalidInput(String),
    Notify(String),
}

/// Renders an error as the user-facing message string.
pub fn map_git_error(err: &GitError) -> (r: String)
    ensures
        (match err {
            GitError::NoRepository => r@ == "Git repository is not available"@,
            GitError::Git(m) => r@ == m@,
            GitError::Io(m) => r@ == m@,
            GitError::InvalidInput(m) => r@ == m@,
            GitError::Notify(m) => r@ == m@,
        }),
{
    match err {
        GitError::NoRepository => String::from_str("Git repository is not available"),
        GitError::Git(m) => m.clone(),
        GitError::Io(m) => m.clone(),
        GitError::InvalidInput(m) => m.clone(),
        GitError::Notify(m) => m.clone(),
    }
}

} // verus!
