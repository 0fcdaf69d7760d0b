//! Integration tests against real repositories: status collection,
//! staging round trips, commit preconditions, diffs, discard and history.

use git_engine::diff::staged_diff;
use git_engine::diff::working_diff;
use git_engine::history::read_history;
use git_engine::ops::commit_staged;
use git_engine::ops::discard_changes;
use git_engine::ops::stage_all;
use git_engine::ops::stage_file;
use git_engine::ops::unstage_all;
use git_engine::ops::unstage_file;
use git_engine::repository::detect_repository;
use git_engine::repository::init_repository;
use git_engine::status::collect_status;
use git_engine::status::file_statuses;
use git_engine::types::GitFileChange;
use git_engine::types::GitFileStatus;
use git_engine::GitError;

/// Creates a fresh repository in a temporary directory and configures a
/// commit identity. Returns the guard and the working-directory root.
fn init_repo() -> (tempfile::TempDir, String) {
    let dir = tempfile::tempdir().unwrap();
    let root = init_repository(dir.path().to_str().unwrap()).unwrap();
    let repo = git2::Repository::open(&root).unwrap();
    let mut cfg = repo.config().unwrap();
    cfg.set_str("user.name", "Tester").unwrap();
    cfg.set_str("user.email", "tester@example.com").unwrap();
    (dir, root)
}

/// Commits the given files on top of HEAD's tree at the given commit
/// time, then checks the result out into the working directory.
fn commit_files(root: &str, files: &[(&str, &str)], msg: &str, time_secs: i64) -> String {
    let repo = git2::Repository::open(root).unwrap();
    let base = repo.head().ok().and_then(|h| h.peel_to_tree().ok());
    let mut tb = repo.treebuilder(base.as_ref()).unwrap();
    for (name, content) in files {
        let oid = repo.blob(content.as_bytes()).unwrap();
        tb.insert(*name, oid, 0o100644).unwrap();
    }
    let tree = repo.find_tree(tb.write().unwrap()).unwrap();
    let sig =
        git2::Signature::new("Tester", "tester@example.com", &git2::Time::new(time_secs, 0))
            .unwrap();
    let parent = repo
        .head()
        .ok()
        .and_then(|h| h.target())
        .map(|o| repo.find_commit(o).unwrap());
    let parent_refs: Vec<&git2::Commit> = parent.iter().collect();
    let oid = repo
        .commit(Some("HEAD"), &sig, &sig, msg, &tree, &parent_refs)
        .unwrap();
    let mut cb = git2::build::CheckoutBuilder::new();
    cb.force();
    repo.checkout_head(Some(&mut cb)).unwrap();
    oid.to_string()
}

/// Writes one file into the working directory without staging it: checks
/// a one-file tree out over the path, then resets the index back to HEAD
/// (when there is one).
fn set_workdir_file(root: &str, name: &str, content: &str) {
    let repo = git2::Repository::open(root).unwrap();
    let blob = repo.blob(content.as_bytes()).unwrap();
    let mut tb = repo.treebuilder(None).unwrap();
    tb.insert(name, blob, 0o100644).unwrap();
    let tree = repo.find_tree(tb.write().unwrap()).unwrap();
    let mut cb = git2::build::CheckoutBuilder::new();
    cb.force().path(name);
    repo.checkout_tree(tree.as_object(), Some(&mut cb)).unwrap();
    let head_target = repo.head().ok().and_then(|h| h.target());
    if let Some(oid) = head_target {
        let commit = repo.find_commit(oid).unwrap();
        repo.reset(commit.as_object(), git2::ResetType::Mixed, None)
            .unwrap();
    }
}

#[test]
fn detect_finds_initialized_repository() {
    let (_dir, root) = init_repo();
    let found = detect_repository(&root).unwrap();
    assert!(found.is_some());
}

#[test]
fn detect_reports_nothing_outside_a_repository() {
    let dir = tempfile::tempdir().unwrap();
    let found = detect_repository(dir.path().to_str().unwrap()).unwrap();
    assert_eq!(found, None);
}

#[test]
fn fresh_repository_status_is_clean_on_main() {
    let (_dir, root) = init_repo();
    commit_files(&root, &[("a.txt", "1")], "init", 1000);
    let status = collect_status(&root).unwrap();
    assert_eq!(status.current_branch, Some("main".to_string()));
    assert!(!status.is_detached);
    assert_eq!(status.ahead, 0);
    assert_eq!(status.behind, 0);
    assert!(status.staged_changes.is_empty());
    assert!(status.changes.is_empty());
    assert!(status.untracked.is_empty());
}

#[test]
fn scenario_modified_and_staged_addition() {
    let (_dir, root) = init_repo();
    commit_files(&root, &[("a.txt", "1")], "init", 1000);
    set_workdir_file(&root, "a.txt", "2");
    set_workdir_file(&root, "b.txt", "x");
    stage_file(&root, "b.txt").unwrap();

    let status = collect_status(&root).unwrap();
    assert_eq!(
        status.staged_changes,
        vec![GitFileChange {
            path: "b.txt".to_string(),
            status: GitFileStatus::Added,
            staged: true,
        }]
    );
    assert_eq!(
        status.changes,
        vec![GitFileChange {
            path: "a.txt".to_string(),
            status: GitFileStatus::Modified,
            staged: false,
        }]
    );
    assert!(status.untracked.is_empty());

    let wd = working_diff(&root, "a.txt").unwrap();
    assert_eq!(wd.old_content, "1");
    assert_eq!(wd.new_content, "2");
    assert!(!wd.binary);

    let sd = staged_diff(&root, "b.txt").unwrap();
    assert_eq!(sd.old_content, "");
    assert_eq!(sd.new_content, "x");
    assert!(!sd.binary);
}

#[test]
fn untracked_files_are_sorted_and_deduplicated() {
    let (_dir, root) = init_repo();
    commit_files(&root, &[("a.txt", "1")], "init", 1000);
    set_workdir_file(&root, "zz.txt", "z");
    set_workdir_file(&root, "mm.txt", "m");
    set_workdir_file(&root, "bb.txt", "b");
    let status = collect_status(&root).unwrap();
    assert_eq!(
        status.untracked,
        vec!["bb.txt".to_string(), "mm.txt".to_string(), "zz.txt".to_string()]
    );
    assert!(status.changes.is_empty());
}

#[test]
fn round_trip_staging_restores_snapshot() {
    let (_dir, root) = init_repo();
    commit_files(&root, &[("a.txt", "1")], "init", 1000);
    set_workdir_file(&root, "c.txt", "z");

    let before = collect_status(&root).unwrap();
    assert_eq!(before.untracked, vec!["c.txt".to_string()]);
    assert!(before.staged_changes.is_empty());

    let staged = stage_all(&root).unwrap();
    assert_eq!(staged, 1);
    let mid = collect_status(&root).unwrap();
    assert_eq!(
        mid.staged_changes,
        vec![GitFileChange {
            path: "c.txt".to_string(),
            status: GitFileStatus::Added,
            staged: true,
        }]
    );
    assert!(mid.untracked.is_empty());

    let unstaged = unstage_all(&root).unwrap();
    assert_eq!(unstaged, 1);
    let after = collect_status(&root).unwrap();
    assert_eq!(before, after);
}

#[test]
fn commit_rejects_blank_message() {
    let (_dir, root) = init_repo();
    set_workdir_file(&root, "a.txt", "1");
    stage_file(&root, "a.txt").unwrap();
    let r = commit_staged(&root, "   \t\n");
    assert!(matches!(r, Err(GitError::InvalidInput(_))));
    let r2 = commit_staged(&root, "");
    assert!(matches!(r2, Err(GitError::InvalidInput(_))));
}

#[test]
fn commit_rejects_empty_staging_area() {
    let (_dir, root) = init_repo();
    let r = commit_staged(&root, "a message");
    assert!(matches!(r, Err(GitError::InvalidInput(_))));
}

#[test]
fn commit_on_empty_repository_has_no_parents() {
    let (_dir, root) = init_repo();
    set_workdir_file(&root, "a.txt", "1");
    stage_file(&root, "a.txt").unwrap();
    let hash = commit_staged(&root, "first").unwrap();
    assert_eq!(hash.len(), 40);

    let history = read_history(&root, 0, 10).unwrap();
    assert_eq!(history.len(), 1);
    assert_eq!(history[0].hash, hash);
    assert_eq!(history[0].short_hash, hash[..7].to_string());
    assert_eq!(history[0].message, "first");
    assert_eq!(history[0].author_name, "Tester");
    assert_eq!(history[0].author_email, "tester@example.com");
    assert!(history[0].parent_hashes.is_empty());
}

#[test]
fn diff_of_unmodified_tracked_file_is_symmetric() {
    let (_dir, root) = init_repo();
    commit_files(&root, &[("a.txt", "hello\n")], "init", 1000);
    let d = working_diff(&root, "a.txt").unwrap();
    assert_eq!(d.old_content, d.new_content);
    assert_eq!(d.old_content, "hello\n");
    assert!(!d.binary);
    assert_eq!(d.path, "a.txt");
    assert_eq!(d.language, "txt");
}

#[test]
fn diff_of_new_untracked_file_has_empty_old_side() {
    let (_dir, root) = init_repo();
    commit_files(&root, &[("a.txt", "1")], "init", 1000);
    set_workdir_file(&root, "n.rs", "fn main() {}\n");
    let d = working_diff(&root, "n.rs").unwrap();
    assert_eq!(d.old_content, "");
    assert_eq!(d.new_content, "fn main() {}\n");
    assert!(!d.binary);
    assert_eq!(d.language, "rust");
}

#[test]
fn diff_of_missing_path_is_empty_on_both_sides() {
    let (_dir, root) = init_repo();
    commit_files(&root, &[("a.txt", "1")], "init", 1000);
    let d = working_diff(&root, "no-such-file.txt").unwrap();
    assert_eq!(d.old_content, "");
    assert_eq!(d.new_content, "");
    assert!(!d.binary);
}

#[test]
fn staged_diff_shows_staged_edit() {
    let (_dir, root) = init_repo();
    commit_files(&root, &[("a.txt", "1")], "init", 1000);
    set_workdir_file(&root, "a.txt", "2");
    stage_file(&root, "a.txt").unwrap();
    let d = staged_diff(&root, "a.txt").unwrap();
    assert_eq!(d.old_content, "1");
    assert_eq!(d.new_content, "2");
    let status = collect_status(&root).unwrap();
    assert_eq!(
        status.staged_changes,
        vec![GitFileChange {
            path: "a.txt".to_string(),
            status: GitFileStatus::Modified,
            staged: true,
        }]
    );
}

#[test]
fn unstage_file_resets_single_path() {
    let (_dir, root) = init_repo();
    commit_files(&root, &[("a.txt", "1")], "init", 1000);
    set_workdir_file(&root, "a.txt", "2");
    stage_file(&root, "a.txt").unwrap();
    unstage_file(&root, "a.txt").unwrap();
    let status = collect_status(&root).unwrap();
    assert!(status.staged_changes.is_empty());
    assert_eq!(
        status.changes,
        vec![GitFileChange {
            path: "a.txt".to_string(),
            status: GitFileStatus::Modified,
            staged: false,
        }]
    );
}

#[test]
fn discard_restores_modified_file_from_head() {
    let (_dir, root) = init_repo();
    commit_files(&root, &[("a.txt", "1")], "init", 1000);
    set_workdir_file(&root, "a.txt", "2");
    discard_changes(&root, &vec!["a.txt".to_string()]).unwrap();
    let d = working_diff(&root, "a.txt").unwrap();
    assert_eq!(d.old_content, "1");
    assert_eq!(d.new_content, "1");
    let status = collect_status(&root).unwrap();
    assert!(status.changes.is_empty());
}

#[test]
fn discard_deletes_untracked_file() {
    let (_dir, root) = init_repo();
    commit_files(&root, &[("a.txt", "1")], "init", 1000);
    set_workdir_file(&root, "u.txt", "x");
    let before = collect_status(&root).unwrap();
    assert_eq!(before.untracked, vec!["u.txt".to_string()]);
    discard_changes(&root, &vec!["u.txt".to_string()]).unwrap();
    let after = collect_status(&root).unwrap();
    assert!(after.untracked.is_empty());
    let d = working_diff(&root, "u.txt").unwrap();
    assert_eq!(d.old_content, "");
    assert_eq!(d.new_content, "");
}

#[test]
fn history_is_oldest_first_with_offset_and_limit() {
    let (_dir, root) = init_repo();
    commit_files(&root, &[("a.txt", "1")], "one", 1000);
    commit_files(&root, &[("a.txt", "2")], "two", 2000);
    commit_files(&root, &[("a.txt", "3")], "three", 3000);

    let all = read_history(&root, 0, 10).unwrap();
    assert_eq!(all.len(), 3);
    assert_eq!(all[0].message, "one");
    assert_eq!(all[1].message, "two");
    assert_eq!(all[2].message, "three");
    assert_eq!(all[0].timestamp, 1000);
    assert_eq!(all[1].parent_hashes, vec![all[0].hash.clone()]);

    let window = read_history(&root, 1, 1).unwrap();
    assert_eq!(window.len(), 1);
    assert_eq!(window[0].message, "two");
}

#[test]
fn history_of_empty_repository_is_empty() {
    let (_dir, root) = init_repo();
    let history = read_history(&root, 0, 10).unwrap();
    assert!(history.is_empty());
}

#[test]
fn file_statuses_reports_best_fit_per_path() {
    let (_dir, root) = init_repo();
    commit_files(&root, &[("a.txt", "1")], "init", 1000);
    set_workdir_file(&root, "a.txt", "2");
    set_workdir_file(&root, "u.txt", "x");
    let statuses = file_statuses(
        &root,
        &vec!["a.txt".to_string(), "u.txt".to_string()],
    )
    .unwrap();
    assert_eq!(
        statuses,
        vec![
            ("a.txt".to_string(), GitFileStatus::Modified),
            ("u.txt".to_string(), GitFileStatus::Untracked),
        ]
    );
}

#[test]
fn file_statuses_defaults_clean_path_to_modified() {
    let (_dir, root) = init_repo();
    commit_files(&root, &[("a.txt", "1")], "init", 1000);
    let statuses = file_statuses(&root, &vec!["a.txt".to_string()]).unwrap();
    assert_eq!(statuses, vec![("a.txt".to_string(), GitFileStatus::Modified)]);
}

#[test]
fn operations_on_missing_repository_report_no_repository() {
    let dir = tempfile::tempdir().unwrap();
    let root = dir.path().to_str().unwrap();
    assert!(matches!(collect_status(root), Err(GitError::NoRepository)));
    assert!(matches!(working_diff(root, "a.txt"), Err(GitError::NoRepository)));
    assert!(matches!(staged_diff(root, "a.txt"), Err(GitError::NoRepository)));
    assert!(matches!(read_history(root, 0, 10), Err(GitError::NoRepository)));
    assert!(matches!(stage_file(root, "a.txt"), Err(GitError::NoRepository)));
    assert!(matches!(commit_staged(root, "msg"), Err(GitError::NoRepository)));
}

#[test]
fn staged_rename_carries_its_source_path() {
    let (_dir, root) = init_repo();
    commit_files(
        &root,
        &[("old-name.txt", "the very same content, long enough to pair\n")],
        "init",
        1000,
    );
    // Check out a tree where the file lives under a new name: the index
    // then stages a delete of the old path and an add of the new one,
    // which rename detection pairs up.
    let repo = git2::Repository::open(&root).unwrap();
    let blob = repo
        .blob("the very same content, long enough to pair\n".as_bytes())
        .unwrap();
    let mut tb = repo.treebuilder(None).unwrap();
    tb.insert("new-name.txt", blob, 0o100644).unwrap();
    let tree = repo.find_tree(tb.write().unwrap()).unwrap();
    let mut cb = git2::build::CheckoutBuilder::new();
    cb.force().remove_untracked(true);
    repo.checkout_tree(tree.as_object(), Some(&mut cb)).unwrap();

    let status = collect_status(&root).unwrap();
    // The status query names a renamed entry by the delta's source side.
    assert_eq!(
        status.staged_changes,
        vec![GitFileChange {
            path: "old-name.txt".to_string(),
            status: GitFileStatus::Renamed { old_path: "old-name.txt".to_string() },
            staged: true,
        }]
    );
}

#[test]
fn detached_head_has_no_branch() {
    let (_dir, root) = init_repo();
    commit_files(&root, &[("a.txt", "1")], "init", 1000);
    let repo = git2::Repository::open(&root).unwrap();
    let oid = repo.head().unwrap().target().unwrap();
    repo.set_head_detached(oid).unwrap();
    let status = collect_status(&root).unwrap();
    assert!(status.is_detached);
    assert_eq!(status.current_branch, None);
}

#[test]
fn binary_content_is_flagged() {
    let (_dir, root) = init_repo();
    commit_files(&root, &[("a.bin", "a\u{0}b")], "init", 1000);
    let d = working_diff(&root, "a.bin").unwrap();
    assert!(d.binary);
    assert_eq!(d.old_content, d.new_content);
}
