//! Status collection: classification of per-path status flags into the
//! three change lists of a snapshot.

use vstd::prelude::*;

use crate::text::contains_view;
use crate::text::lemma_strictly_sorted_no_dup;
use crate::text::norm_path;
use crate::text::normalize_path;
use crate::text::sort_dedup_paths;
use crate::text::strictly_sorted;
use crate::types::change;
use crate::types::ChangeModel;
use crate::types::GitFileChange;
use crate::types::GitFileStatus;
use crate::types::GitRepositoryStatus;
use crate::types::StatusModel;
use crate::types::StatusSnapshotModel;
use crate::GitResult;

verus! {

/// The per-path status bits a status query reports: how the index differs
/// from HEAD, and how the working tree differs from the index.
#[derive(Clone, Copy, Debug, PartialEq, Eq, Structural)]
pub struct StatusFlags {
    pub index_new: bool,
    pub index_modified: bool,
    pub index_deleted: bool,
    pub index_renamed: bool,
    pub wt_new: bool,
    pub wt_modified: bool,
    pub wt_deleted: bool,
    pub wt_renamed: bool,
    pub conflicted: bool,
}

/// One entry of a whole-tree status query, as plain values: the path
/// relative to the repository root, its status flags, and the rename
/// source paths of the two comparisons, where the query reported one.
#[derive(Debug, Clone, PartialEq, Eq)]
pub struct RawEntry {
    pub path: String,
    pub flags: StatusFlags,
    pub head_rename: Option<String>,
    pub wt_rename: Option<String>,
}

/// Model of [`RawEntry`].
pub ghost struct RawEntryModel {
    pub path: Seq<char>,
    pub flags: StatusFlags,
    pub head_rename: Option<Seq<char>>,
    pub wt_rename: Option<Seq<char>>,
}

impl View for RawEntry {
    type V = RawEntryModel;

    open spec fn view(&self) -> RawEntryModel {
        RawEntryModel {
            path: self.path@,
            flags: self.flags,
            head_rename: (match self.head_rename {
                Some(p) => Some(p@),
                None => None,
            }),
            wt_rename: (match self.wt_rename {
                Some(p) => Some(p@),
                None => None,
            }),
        }
    }
}

/// The staged change an entry contributes: the first matching
/// index-vs-HEAD classification, in the fixed order new, modified,
/// deleted, renamed. The rename's source falls back to the entry's own
/// path when the query reported none.
pub open spec fn staged_change_of(e: RawEntryModel) -> Option<ChangeModel> {
    if e.flags.index_new {
        Some(ChangeModel { path: norm_path(e.path), status: StatusModel::Added, staged: true })
    } else if e.flags.index_modified {
        Some(ChangeModel { path: norm_path(e.path), status: StatusModel::Modified, staged: true })
    } else if e.flags.index_deleted {
        Some(ChangeModel { path: norm_path(e.path), status: StatusModel::Deleted, staged: true })
    } else if e.flags.index_renamed {
        Some(
            ChangeModel {
                path: norm_path(e.path),
                status: (StatusModel::Renamed {
                    old_path: (match e.head_rename {
                        Some(p) => norm_path(p),
                        None => norm_path(e.path),
                    }),
                }),
                staged: true,
            },
        )
    } else {
        None
    }
}

/// The unstaged change an entry contributes: a conflict takes precedence
/// over every other workdir-vs-index classification; after that, a new
/// path in the working tree is untracked, not an unstaged change, and
/// the remaining classifications apply in the fixed order modified,
/// deleted, renamed.
pub open spec fn unstaged_change_of(e: RawEntryModel) -> Option<ChangeModel> {
    if e.flags.conflicted {
        Some(ChangeModel { path: norm_path(e.path), status: StatusModel::Conflicted, staged: false })
    } else if e.flags.wt_new {
        None
    } else if e.flags.wt_modified {
        Some(ChangeModel { path: norm_path(e.path), status: StatusModel::Modified, staged: false })
    } else if e.flags.wt_deleted {
        Some(ChangeModel { path: norm_path(e.path), status: StatusModel::Deleted, staged: false })
    } else if e.flags.wt_renamed {
        Some(
            ChangeModel {
                path: norm_path(e.path),
                status: (StatusModel::Renamed {
                    old_path: (match e.wt_rename {
                        Some(p) => norm_path(p),
                        None => norm_path(e.path),
                    }),
                }),
                staged: false,
            },
        )
    } else {
        None
    }
}

/// The staged change list of a sequence of entries, in entry order.
pub open spec fn staged_changes_of(es: Seq<RawEntryModel>) -> Seq<ChangeModel>
    decreases es.len(),
{
    if es.len() == 0 {
        Seq::empty()
    } else {
        let rest = staged_changes_of(es.drop_last());
        match staged_change_of(es.last()) {
            Some(c) => rest.push(c),
            None => rest,
        }
    }
}

/// The unstaged change list of a sequence of entries, in entry order.
pub open spec fn unstaged_changes_of(es: Seq<RawEntryModel>) -> Seq<ChangeModel>
    decreases es.len(),
{
    if es.len() == 0 {
        Seq::empty()
    } else {
        let rest = unstaged_changes_of(es.drop_last());
        match unstaged_change_of(es.last()) {
            Some(c) => rest.push(c),
            None => rest,
        }
    }
}

/// The normalized paths of the entries that are new in the working tree
/// and not conflicted (a conflict outranks the untracked classification),
/// in entry order, duplicates included.
pub open spec fn untracked_paths_of(es: Seq<RawEntryModel>) -> Seq<Seq<char>>
    decreases es.len(),
{
    if es.len() == 0 {
        Seq::empty()
    } else {
        let rest = untracked_paths_of(es.drop_last());
        if es.last().flags.wt_new && !es.last().flags.conflicted {
            rest.push(norm_path(es.last().path))
        } else {
            rest
        }
    }
}

/// Assembles a status snapshot from the plain values a status query
/// reported: branch identity, ahead/behind counts, and one entry per
/// differing path. The untracked list is sorted and deduplicated; the two
/// change lists keep the query's order.
pub fn assemble_status(
    repo_path: &str,
    branch: Option<String>,
    detached: bool,
    ahead: u32,
    behind: u32,
    entries: &Vec<RawEntry>,
) -> (r: GitRepositoryStatus)
    ensures
        ({
            let em = entries@.map_values(|e: RawEntry| e@);
            let upaths = untracked_paths_of(em);
            &&& r@.repository_path == norm_path(repo_path@)
            &&& r@.current_branch == (match branch {
                Some(b) => Some(b@),
                None => None,
            })
            &&& r@.is_detached == detached
            &&& r@.ahead == ahead
            &&& r@.behind == behind
            &&& r@.staged_changes == staged_changes_of(em)
            &&& r@.changes == unstaged_changes_of(em)
            &&& strictly_sorted(r@.untracked)
            &&& (forall|i: int|
                0 <= i < r@.untracked.len() ==> upaths.contains(#[trigger] r@.untracked[i]))
            &&& (forall|i: int|
                0 <= i < upaths.len() ==> r@.untracked.contains(#[trigger] upaths[i]))
        }),
{
    let ghost em = entries@.map_values(|e: RawEntry| e@);
    let mut staged: Vec<GitFileChange> = Vec::new();
    let mut unstaged: Vec<GitFileChange> = Vec::new();
    let mut untracked_raw: Vec<String> = Vec::new();
    let n = entries.len();
    let mut i: usize = 0;
    while i < n
        invariant
            i <= n,
            n == entries@.len(),
            em == entries@.map_values(|e: RawEntry| e@),
            staged@.map_values(|c: GitFileChange| c@) == staged_changes_of(em.take(i as int)),
            unstaged@.map_values(|c: GitFileChange| c@) == unstaged_changes_of(em.take(i as int)),
            untracked_raw@.map_values(|p: String| p@) == untracked_paths_of(em.take(i as int)),
        decreases n - i,
    {
        let e = &entries[i];
        let p = normalize_path(e.path.as_str());
        proof {
            assert(em.take(i + 1).drop_last() =~= em.take(i as int));
            assert(em.take(i + 1).last() == em[i as int]);
            assert(em[i as int] == entries@[i as int]@);
        }
        if e.flags.index_new {
            staged.push(change(p.clone(), GitFileStatus::Added, true));
        } else if e.flags.index_modified {
            staged.push(change(p.clone(), GitFileStatus::Modified, true));
        } else if e.flags.index_deleted {
            staged.push(change(p.clone(), GitFileStatus::Deleted, true));
        } else if e.flags.index_renamed {
            let old_path = match &e.head_rename {
                Some(s) => normalize_path(s.as_str()),
                None => p.clone(),
            };
            staged.push(change(p.clone(), GitFileStatus::Renamed { old_path }, true));
        }
        proof {
            assert(staged@.map_values(|c: GitFileChange| c@) =~= staged_changes_of(
                em.take(i + 1),
            ));
        }
        if e.flags.conflicted {
            unstaged.push(change(p.clone(), GitFileStatus::Conflicted, false));
        } else if e.flags.wt_new {
            untracked_raw.push(p.clone());
        } else if e.flags.wt_modified {
            unstaged.push(change(p.clone(), GitFileStatus::Modified, false));
        } else if e.flags.wt_deleted {
            unstaged.push(change(p.clone(), GitFileStatus::Deleted, false));
        } else if e.flags.wt_renamed {
            let old_path = match &e.wt_rename {
                Some(s) => normalize_path(s.as_str()),
                None => p.clone(),
            };
            unstaged.push(change(p.clone(), GitFileStatus::Renamed { old_path }, false));
        }
        proof {
            assert(unstaged@.map_values(|c: GitFileChange| c@) =~= unstaged_changes_of(
                em.take(i + 1),
            ));
            assert(untracked_raw@.map_values(|q: String| q@) =~= untracked_paths_of(
                em.take(i + 1),
            ));
        }
        i = i + 1;
    }
    proof {
        assert(em.take(n as int) =~= em);
    }
    let untracked = sort_dedup_paths(&untracked_raw);
    proof {
        let upaths = untracked_paths_of(em);
        let uviews = untracked@.map_values(|p: String| p@);
        assert(untracked_raw@.map_values(|p: String| p@) == upaths);
        assert forall|i2: int| 0 <= i2 < uviews.len() implies upaths.contains(
            #[trigger] uviews[i2],
        ) by {
            assert(contains_view(untracked_raw@, untracked@[i2]@));
            let w = choose|t: int|
                0 <= t < untracked_raw@.len() && untracked_raw@[t]@ == untracked@[i2]@;
            assert(upaths[w] == uviews[i2]);
        }
        assert forall|i2: int| 0 <= i2 < upaths.len() implies uviews.contains(
            #[trigger] upaths[i2],
        ) by {
            assert(untracked_raw@[i2]@ == upaths[i2]);
            assert(contains_view(untracked@, untracked_raw@[i2]@));
            let w = choose|t: int|
                0 <= t < untracked@.len() && untracked@[t]@ == untracked_raw@[i2]@;
            assert(uviews[w] == upaths[i2]);
        }
    }
    GitRepositoryStatus {
        repository_path: normalize_path(repo_path),
        current_branch: branch,
        is_detached: detached,
        ahead,
        behind,
        staged_changes: staged,
        changes: unstaged,
        untracked,
    }
}

/// The single best-fit status of one path, from its flags, in the fixed
/// priority order untracked, deleted, renamed, conflicted, modified.
pub open spec fn spec_status_of_flags(f: StatusFlags) -> Option<StatusModel> {
    if f.index_new || f.wt_new {
        Some(StatusModel::Untracked)
    } else if f.index_deleted || f.wt_deleted {
        Some(StatusModel::Deleted)
    } else if f.index_renamed || f.wt_renamed {
        Some(StatusModel::Renamed { old_path: Seq::empty() })
    } else if f.conflicted {
        Some(StatusModel::Conflicted)
    } else if f.index_modified || f.wt_modified {
        Some(StatusModel::Modified)
    } else {
        None
    }
}

/// Maps status flags to the single best-fit classification; a path whose
/// flags report nothing maps to nothing, and a rename here carries no
/// source path.
pub fn map_status_bits(flags: StatusFlags) -> (r: Option<GitFileStatus>)
    ensures
        (match r {
            Some(s) => spec_status_of_flags(flags) == Some(s@),
            None => spec_status_of_flags(flags) is None,
        }),
{
    if flags.index_new || flags.wt_new {
        Some(GitFileStatus::Untracked)
    } else if flags.index_deleted || flags.wt_deleted {
        Some(GitFileStatus::Deleted)
    } else if flags.index_renamed || flags.wt_renamed {
        Some(GitFileStatus::Renamed { old_path: String::new() })
    } else if flags.conflicted {
        Some(GitFileStatus::Conflicted)
    } else if flags.index_modified || flags.wt_modified {
        Some(GitFileStatus::Modified)
    } else {
        None
    }
}

/// The per-path status a lookup reports: the best fit by priority, with
/// Modified as the deliberate catch-all for a path whose flags report no
/// detectable change.
pub fn best_fit_status(flags: StatusFlags) -> (r: GitFileStatus)
    ensures
        r@ == (match spec_status_of_flags(flags) {
            Some(s) => s,
            None => StatusModel::Modified,
        }),
{
    match map_status_bits(flags) {
        Some(s) => s,
        None => GitFileStatus::Modified,
    }
}

/// Status consistency law, membership half: every change in the staged
/// list is contributed by some entry of the query, through the
/// index-vs-HEAD classification alone.
pub proof fn lemma_staged_membership(es: Seq<RawEntryModel>)
    ensures
        forall|j: int|
            0 <= j < staged_changes_of(es).len() ==> exists|i: int|
                0 <= i < es.len() && staged_change_of(es[i]) == Some(
                    #[trigger] staged_changes_of(es)[j],
                ),
    decreases es.len(),
{
    if es.len() > 0 {
        lemma_staged_membership(es.drop_last());
        assert forall|j: int| 0 <= j < staged_changes_of(es).len() implies exists|i: int|
            0 <= i < es.len() && staged_change_of(es[i]) == Some(
                #[trigger] staged_changes_of(es)[j],
            ) by {
            let rest = staged_changes_of(es.drop_last());
            if j < rest.len() {
                let w = choose|i: int|
                    0 <= i < es.drop_last().len() && staged_change_of(es.drop_last()[i]) == Some(
                        rest[j],
                    );
                assert(es[w] == es.drop_last()[w]);
                assert(staged_change_of(es[w]) == Some(staged_changes_of(es)[j]));
            } else {
                assert(staged_change_of(es[es.len() - 1]) == Some(staged_changes_of(es)[j]));
            }
        }
    }
}

/// Status consistency law, classification half: an entry contributes a
/// staged change exactly as its index-vs-HEAD flags report. `index_new`
/// reports a path present in the index and absent in HEAD; `index_deleted`
/// the converse; `index_modified` a path present differently in both; the
/// change is always marked staged and carries the normalized path.
pub proof fn lemma_staged_classification(e: RawEntryModel)
    ensures
        (match staged_change_of(e) {
            Some(c) => {
                &&& c.staged == true
                &&& c.path == norm_path(e.path)
                &&& (c.status is Added <==> e.flags.index_new)
                &&& (c.status is Modified <==> (!e.flags.index_new && e.flags.index_modified))
                &&& (c.status is Deleted <==> (!e.flags.index_new && !e.flags.index_modified
                    && e.flags.index_deleted))
                &&& (c.status is Renamed <==> (!e.flags.index_new && !e.flags.index_modified
                    && !e.flags.index_deleted && e.flags.index_renamed))
            },
            None => {
                &&& !e.flags.index_new
                &&& !e.flags.index_modified
                &&& !e.flags.index_deleted
                &&& !e.flags.index_renamed
            },
        }),
{
}

/// What HEAD points at: a branch (whose short name may be missing when
/// it is not valid UTF-8), or anything else, which counts as detached.
#[derive(Debug, Clone, PartialEq, Eq)]
pub enum HeadInfo {
    Branch(Option<String>),
    Detached,
}

/// Every change in a staged list is marked staged and classified as an
/// index-vs-HEAD difference; every change in an unstaged list is not
/// marked staged and classified as a workdir-vs-index difference or a
/// conflict.
pub proof fn lemma_changes_sides(es: Seq<RawEntryModel>)
    ensures
        forall|j: int|
            0 <= j < staged_changes_of(es).len() ==> {
                let c = #[trigger] staged_changes_of(es)[j];
                c.staged == true && (c.status is Added || c.status is Modified || c.status
                    is Deleted || c.status is Renamed)
            },
        forall|j: int|
            0 <= j < unstaged_changes_of(es).len() ==> {
                let c = #[trigger] unstaged_changes_of(es)[j];
                c.staged == false && (c.status is Modified || c.status is Deleted || c.status
                    is Renamed || c.status is Conflicted)
            },
    decreases es.len(),
{
    if es.len() > 0 {
        lemma_changes_sides(es.drop_last());
    }
}

/// Saturates a count to the snapshot's count type.
pub fn sat_u32(x: usize) -> (r: u32)
    ensures
        r == (if x > u32::MAX {
            u32::MAX as int
        } else {
            x as int
        }),
{
    if x > u32::MAX as usize {
        u32::MAX
    } else {
        x as u32
    }
}

/// Folds the graph query's outcome into the snapshot's ahead/behind
/// counts: a missing HEAD, branch or upstream, and a failed query, all
/// read as zero both ways; counts are saturated to the count type.
pub fn ab_counts(outcome: Option<(usize, usize)>) -> (r: (u32, u32))
    ensures
        (match outcome {
            Some(p) => {
                &&& r.0 == (if p.0 > u32::MAX {
                    u32::MAX as int
                } else {
                    p.0 as int
                })
                &&& r.1 == (if p.1 > u32::MAX {
                    u32::MAX as int
                } else {
                    p.1 as int
                })
            },
            None => r.0 == 0 && r.1 == 0,
        }),
{
    match outcome {
        Some((a, b)) => (sat_u32(a), sat_u32(b)),
        None => (0, 0),
    }
}

/// Splits the head query's answer into the snapshot's branch fields: a
/// branch yields its (possibly missing) short name and not-detached;
/// anything else yields no branch and detached.
pub fn head_fields(head: HeadInfo) -> (r: (Option<String>, bool))
    ensures
        (match head {
            HeadInfo::Branch(name) => r.0 == name && r.1 == false,
            HeadInfo::Detached => r.0 is None && r.1 == true,
        }),
{
    match head {
        HeadInfo::Branch(name) => (name, false),
        HeadInfo::Detached => (None, true),
    }
}

/// Ahead/behind counts versus the configured upstream: the graph query's
/// outcome, flattened to a plain value and folded through [`ab_counts`].
pub fn ahead_behind(repo: &git2::Repository) -> (r: (u32, u32)) {
    let outcome = match crate::raw::head_upstream_oids(repo) {
        Some((local, upstream)) => {
            match crate::raw::graph_ahead_behind_raw(repo, local, upstream) {
                Ok(p) => Some(p),
                Err(_) => None,
            }
        },
        None => None,
    };
    ab_counts(outcome)
}

/// Computes the full status snapshot of the repository at `root`: branch
/// identity, ahead/behind counts, and the three change lists, in one
/// whole-tree query. The untracked list comes out strictly sorted with
/// no duplicates; staged changes are marked staged, unstaged ones not.
pub fn collect_status(root: &str) -> (r: GitResult<GitRepositoryStatus>)
    ensures
        (match r {
            Ok(s) => {
                &&& strictly_sorted(s@.untracked)
                &&& (forall|i: int, j: int|
                    0 <= i < j < s@.untracked.len() ==> s@.untracked[i] != s@.untracked[j])
                &&& (forall|i: int|
                    0 <= i < s@.staged_changes.len() ==> {
                        let c = #[trigger] s@.staged_changes[i];
                        c.staged == true && (c.status is Added || c.status is Modified || c.status
                            is Deleted || c.status is Renamed)
                    })
                &&& (forall|i: int|
                    0 <= i < s@.changes.len() ==> {
                        let c = #[trigger] s@.changes[i];
                        c.staged == false && (c.status is Modified || c.status is Deleted
                            || c.status is Renamed || c.status is Conflicted)
                    })
            },
            Err(e) => e is Git || e is NoRepository,
        }),
{
    let repo = match crate::repository::open_repository(root) {
        Ok(x) => x,
        Err(e) => { return Err(e); },
    };
    let head = crate::raw::head_info_raw(&repo);
    let (branch, detached) = head_fields(head);
    let (ahead, behind) = ahead_behind(&repo);
    let statuses = match crate::raw::repo_statuses(&repo) {
        Ok(s) => s,
        Err(e) => { return Err(crate::raw::err_to_git(e)); },
    };
    let n = crate::raw::statuses_len(&statuses);
    let mut entries: Vec<RawEntry> = Vec::new();
    let mut i: usize = 0;
    while i < n
        decreases n - i,
    {
        match crate::raw::statuses_get(&statuses, i) {
            Some(en) => {
                let flags = crate::raw::status_to_flags(crate::raw::entry_status(&en));
                let path = match crate::raw::entry_path(&en) {
                    Some(p) => p,
                    None => String::new(),
                };
                let head_rename = crate::raw::entry_head_rename(&en);
                let wt_rename = crate::raw::entry_wt_rename(&en);
                entries.push(RawEntry { path, flags, head_rename, wt_rename });
            },
            None => {},
        }
        i = i + 1;
    }
    let snapshot = assemble_status(root, branch, detached, ahead, behind, &entries);
    proof {
        let em = entries@.map_values(|e: RawEntry| e@);
        lemma_changes_sides(em);
        lemma_strictly_sorted_no_dup(snapshot@.untracked);
    }
    Ok(snapshot)
}

/// Looks up a single best-fit status per path, fail-fast on the first
/// path the query rejects. A path whose flags report nothing maps to
/// Modified as a conservative catch-all.
pub fn file_statuses(root: &str, paths: &Vec<String>) -> (r: GitResult<
    Vec<(String, GitFileStatus)>,
>)
    ensures
        (match r {
            Ok(v) => {
                &&& v@.len() == paths@.len()
                &&& (forall|i: int| 0 <= i < v@.len() ==> (#[trigger] v@[i]).0@ == paths@[i]@)
            },
            Err(e) => e is Git || e is NoRepository,
        }),
{
    let repo = match crate::repository::open_repository(root) {
        Ok(x) => x,
        Err(e) => { return Err(e); },
    };
    let n = paths.len();
    let mut out: Vec<(String, GitFileStatus)> = Vec::new();
    let mut k: usize = 0;
    while k < n
        invariant
            k <= n,
            n == paths@.len(),
            out@.len() == k,
            forall|i: int| 0 <= i < k ==> (#[trigger] out@[i]).0@ == paths@[i]@,
        decreases n - k,
    {
        let flags = match crate::raw::status_file_raw(&repo, paths[k].as_str()) {
            Ok(s) => crate::raw::status_to_flags(s),
            Err(e) => { return Err(crate::raw::err_to_git(e)); },
        };
        let mapped = best_fit_status(flags);
        out.push((paths[k].clone(), mapped));
        k = k + 1;
    }
    Ok(out)
}

/// Untracked dedup law: a strictly sorted untracked list holds no path
/// twice.
pub proof fn lemma_untracked_no_dup(s: StatusSnapshotModel)
    requires
        strictly_sorted(s.untracked),
    ensures
        forall|i: int, j: int|
            0 <= i < j < s.untracked.len() ==> s.untracked[i] != s.untracked[j],
{
    lemma_strictly_sorted_no_dup(s.untracked);
}

} // verus!
