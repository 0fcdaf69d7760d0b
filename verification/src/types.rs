//! The value types of the engine and their mathematical models.

use vstd::prelude::*;

verus! {

/// How a single path differs between two content sources.
#[derive(Debug, Clone, PartialEq, Eq)]
pub enum GitFileStatus {
    Modified,
    Added,
    Deleted,
    Renamed { old_path: String },
    Copied { source: String },
    Conflicted,
    Untracked,
}

/// Model of [`GitFileStatus`]: the same tags over character sequences.
pub ghost enum StatusModel {
    Modified,
    Added,
    Deleted,
    Renamed { old_path: Seq<char> },
    Copied { source: Seq<char> },
    Conflicted,
    Untracked,
}

impl View for GitFileStatus {
    type V = StatusModel;

    open spec fn view(&self) -> StatusModel {
        match self {
            GitFileStatus::Modified => StatusModel::Modified,
            GitFileStatus::Added => StatusModel::Added,
            GitFileStatus::Deleted => StatusModel::Deleted,
            GitFileStatus::Renamed { old_path } => (StatusModel::Renamed { old_path: old_path@ }),
            GitFileStatus::Copied { source } => (StatusModel::Copied { source: source@ }),
            GitFileStatus::Conflicted => StatusModel::Conflicted,
            GitFileStatus::Untracked => StatusModel::Untracked,
        }
    }
}

/// One changed path in a status snapshot, with the side it was seen on.
#[derive(Debug, Clone, PartialEq, Eq)]
pub struct GitFileChange {
    pub path: String,
    pub status: GitFileStatus,
    pub staged: bool,
}

/// Model of [`GitFileChange`].
pub ghost struct ChangeModel {
    pub path: Seq<char>,
    pub status: StatusModel,
    pub staged: bool,
}

impl View for GitFileChange {
    type V = ChangeModel;

    open spec fn view(&self) -> ChangeModel {
        ChangeModel { path: self.path@, status: self.status@, staged: self.staged }
    }
}

/// A full status snapshot of one repository, replaced wholesale on each
/// recomputation and never patched in place.
#[derive(Debug, Clone, PartialEq, Eq)]
pub struct GitRepositoryStatus {
    pub repository_path: String,
    pub current_branch: Option<String>,
    pub is_detached: bool,
    pub ahead: u32,
    pub behind: u32,
    pub staged_changes: Vec<GitFileChange>,
    pub changes: Vec<GitFileChange>,
    pub untracked: Vec<String>,
}

/// Model of [`GitRepositoryStatus`].
pub ghost struct StatusSnapshotModel {
    pub repository_path: Seq<char>,
    pub current_branch: Option<Seq<char>>,
    pub is_detached: bool,
    pub ahead: u32,
    pub behind: u32,
    pub staged_changes: Seq<ChangeModel>,
    pub changes: Seq<ChangeModel>,
    pub untracked: Seq<Seq<char>>,
}

impl View for GitRepositoryStatus {
    type V = StatusSnapshotModel;

    open spec fn view(&self) -> StatusSnapshotModel {
        StatusSnapshotModel {
            repository_path: self.repository_path@,
            current_branch: (match self.current_branch {
                Some(b) => Some(b@),
                None => None,
            }),
            is_detached: self.is_detached,
            ahead: self.ahead,
            behind: self.behind,
            staged_changes: self.staged_changes@.map_values(|c: GitFileChange| c@),
            changes: self.changes@.map_values(|c: GitFileChange| c@),
            untracked: self.untracked@.map_values(|p: String| p@),
        }
    }
}

/// One commit, read from a history traversal.
#[derive(Debug, Clone, PartialEq, Eq)]
pub struct CommitInfo {
    pub hash: String,
    pub short_hash: String,
    pub message: String,
    pub author_name: String,
    pub author_email: String,
    pub timestamp: i64,
    pub parent_hashes: Vec<String>,
}

/// Model of [`CommitInfo`].
pub ghost struct CommitModel {
    pub hash: Seq<char>,
    pub short_hash: Seq<char>,
    pub message: Seq<char>,
    pub author_name: Seq<char>,
    pub author_email: Seq<char>,
    pub timestamp: i64,
    pub parent_hashes: Seq<Seq<char>>,
}

impl View for CommitInfo {
    type V = CommitModel;

    open spec fn view(&self) -> CommitModel {
        CommitModel {
            hash: self.hash@,
            short_hash: self.short_hash@,
            message: self.message@,
            author_name: self.author_name@,
            author_email: self.author_email@,
            timestamp: self.timestamp,
            parent_hashes: self.parent_hashes@.map_values(|p: String| p@),
        }
    }
}

/// An old/new content pair for one path, plus a language tag and a
/// binary-content flag.
#[derive(Debug, Clone, PartialEq, Eq)]
pub struct GitDiff {
    pub path: String,
    pub old_content: String,
    pub new_content: String,
    pub language: String,
    pub binary: bool,
}

/// Model of [`GitDiff`].
pub ghost struct DiffModel {
    pub path: Seq<char>,
    pub old_content: Seq<char>,
    pub new_content: Seq<char>,
    pub language: Seq<char>,
    pub binary: bool,
}

impl View for GitDiff {
    type V = DiffModel;

    open spec fn view(&self) -> DiffModel {
        DiffModel {
            path: self.path@,
            old_content: self.old_content@,
            new_content: self.new_content@,
            language: self.language@,
            binary: self.binary,
        }
    }
}

/// Builds one change record.
pub fn change(path: String, status: GitFileStatus, staged: bool) -> (c: GitFileChange)
    ensures
        c@ == (ChangeModel { path: path@, status: status@, staged }),
{
    GitFileChange { path, status, staged }
}

} // verus!
