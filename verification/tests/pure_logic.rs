//! Tests of the pure parts of the engine: decoding, language inference,
//! path normalization, sorting, status classification, the cache and the
//! debounce gate.

use git_engine::diff::decode_bytes;
use git_engine::diff::language_from_path;
use git_engine::history::window_history;
use git_engine::history::CommitRaw;
use git_engine::map_git_error;
use git_engine::ops::net_count;
use git_engine::ops::staged_len;
use git_engine::state::GitState;
use git_engine::state::WatcherPlan;
use git_engine::status::ab_counts;
use git_engine::status::assemble_status;
use git_engine::status::best_fit_status;
use git_engine::status::head_fields;
use git_engine::status::map_status_bits;
use git_engine::status::HeadInfo;
use git_engine::status::RawEntry;
use git_engine::status::StatusFlags;
use git_engine::text::normalize_path;
use git_engine::text::sort_dedup_paths;
use git_engine::text::str_eq;
use git_engine::text::str_is_blank;
use git_engine::text::str_lt;
use git_engine::types::change;
use git_engine::types::GitFileChange;
use git_engine::types::GitFileStatus;
use git_engine::types::GitRepositoryStatus;
use git_engine::GitError;

fn flags_none() -> StatusFlags {
    StatusFlags {
        index_new: false,
        index_modified: false,
        index_deleted: false,
        index_renamed: false,
        wt_new: false,
        wt_modified: false,
        wt_deleted: false,
        wt_renamed: false,
        conflicted: false,
    }
}

fn empty_snapshot(path: &str) -> GitRepositoryStatus {
    GitRepositoryStatus {
        repository_path: path.to_string(),
        current_branch: Some("main".to_string()),
        is_detached: false,
        ahead: 0,
        behind: 0,
        staged_changes: vec![],
        changes: vec![],
        untracked: vec![],
    }
}

#[test]
fn decode_empty_bytes() {
    let (text, binary) = decode_bytes(b"");
    assert_eq!(text, "");
    assert!(!binary);
}

#[test]
fn decode_plain_text() {
    let (text, binary) = decode_bytes(b"hello\nworld");
    assert_eq!(text, "hello\nworld");
    assert!(!binary);
}

#[test]
fn decode_text_with_nul_is_binary() {
    let (text, binary) = decode_bytes(&[0x61, 0x00, 0x62]);
    assert_eq!(text, "a\u{0}b");
    assert!(binary);
}

#[test]
fn decode_invalid_utf8_is_lossy_and_binary() {
    let (text, binary) = decode_bytes(&[0x61, 0xff, 0x62]);
    assert_eq!(text, "a\u{FFFD}b");
    assert!(binary);
}

#[test]
fn language_table() {
    assert_eq!(language_from_path("src/main.rs"), "rust");
    assert_eq!(language_from_path("a.ts"), "typescript");
    assert_eq!(language_from_path("a.tsx"), "typescript");
    assert_eq!(language_from_path("a.js"), "javascript");
    assert_eq!(language_from_path("a.jsx"), "javascript");
    assert_eq!(language_from_path("a.json"), "json");
    assert_eq!(language_from_path("Cargo.toml"), "toml");
    assert_eq!(language_from_path("README.md"), "markdown");
    assert_eq!(language_from_path("a.yml"), "yaml");
    assert_eq!(language_from_path("a.yaml"), "yaml");
    assert_eq!(language_from_path("a.css"), "css");
    assert_eq!(language_from_path("a.html"), "html");
}

#[test]
fn language_unknown_extension_passes_through_lowercased() {
    assert_eq!(language_from_path("a.WeIrD"), "weird");
    assert_eq!(language_from_path("x.RS"), "rust");
}

#[test]
fn language_without_extension_is_plaintext() {
    assert_eq!(language_from_path("Makefile"), "plaintext");
    assert_eq!(language_from_path(".hidden"), "plaintext");
    assert_eq!(language_from_path("dir.d/file"), "plaintext");
    assert_eq!(language_from_path(""), "plaintext");
}

#[test]
fn normalize_backslashes() {
    assert_eq!(normalize_path("a\\b\\c.txt"), "a/b/c.txt");
    assert_eq!(normalize_path("a/b"), "a/b");
    assert_eq!(normalize_path(""), "");
}

#[test]
fn string_order_and_equality() {
    assert!(str_lt("a", "b"));
    assert!(str_lt("a", "ab"));
    assert!(!str_lt("b", "a"));
    assert!(!str_lt("a", "a"));
    assert!(str_eq("same", "same"));
    assert!(!str_eq("same", "other"));
}

#[test]
fn blank_strings() {
    assert!(str_is_blank(""));
    assert!(str_is_blank("  \t\r\n"));
    assert!(str_is_blank("\u{00A0}\u{2003}"));
    assert!(!str_is_blank(" x "));
}

#[test]
fn sort_dedup_sorts_and_removes_duplicates() {
    let input = vec![
        "b.txt".to_string(),
        "a.txt".to_string(),
        "c/a".to_string(),
        "a.txt".to_string(),
        "b.txt".to_string(),
    ];
    let out = sort_dedup_paths(&input);
    assert_eq!(out, vec!["a.txt".to_string(), "b.txt".to_string(), "c/a".to_string()]);
}

#[test]
fn sort_dedup_empty() {
    let out = sort_dedup_paths(&Vec::new());
    assert!(out.is_empty());
}

#[test]
fn map_status_priority_untracked_first() {
    let mut f = flags_none();
    f.wt_new = true;
    f.wt_deleted = true;
    f.conflicted = true;
    f.wt_modified = true;
    assert_eq!(map_status_bits(f), Some(GitFileStatus::Untracked));
}

#[test]
fn map_status_priority_deleted_over_renamed() {
    let mut f = flags_none();
    f.index_deleted = true;
    f.index_renamed = true;
    f.conflicted = true;
    assert_eq!(map_status_bits(f), Some(GitFileStatus::Deleted));
}

#[test]
fn map_status_priority_renamed_over_conflicted() {
    let mut f = flags_none();
    f.wt_renamed = true;
    f.conflicted = true;
    f.index_modified = true;
    assert_eq!(
        map_status_bits(f),
        Some(GitFileStatus::Renamed { old_path: String::new() })
    );
}

#[test]
fn map_status_priority_conflicted_over_modified() {
    let mut f = flags_none();
    f.conflicted = true;
    f.wt_modified = true;
    assert_eq!(map_status_bits(f), Some(GitFileStatus::Conflicted));
}

#[test]
fn map_status_modified_and_none() {
    let mut f = flags_none();
    f.index_modified = true;
    assert_eq!(map_status_bits(f), Some(GitFileStatus::Modified));
    assert_eq!(map_status_bits(flags_none()), None);
}

#[test]
fn change_builder_sets_fields() {
    let c = change("p.txt".to_string(), GitFileStatus::Added, true);
    assert_eq!(
        c,
        GitFileChange {
            path: "p.txt".to_string(),
            status: GitFileStatus::Added,
            staged: true,
        }
    );
}

#[test]
fn cache_fresh_within_window_returns_same_snapshot() {
    let mut st = GitState::new();
    let snap = empty_snapshot("/r");
    st.store_status_cache(snap.clone(), 1000);
    let hit = st.get_cached_status(5999);
    assert_eq!(hit, Some(&snap));
    let hit_at_edge = st.get_cached_status(6000);
    assert_eq!(hit_at_edge, Some(&snap));
}

#[test]
fn cache_expires_past_window() {
    let mut st = GitState::new();
    st.store_status_cache(empty_snapshot("/r"), 1000);
    assert!(st.get_cached_status(6001).is_none());
}

#[test]
fn cache_miss_after_invalidation() {
    let mut st = GitState::new();
    st.store_status_cache(empty_snapshot("/r"), 1000);
    st.invalidate_status_cache();
    assert!(st.get_cached_status(1001).is_none());
}

#[test]
fn cache_cleared_on_root_change() {
    let mut st = GitState::new();
    st.store_status_cache(empty_snapshot("/r"), 1000);
    st.set_repository_root(Some("/other".to_string()));
    assert!(st.get_cached_status(1001).is_none());
    assert_eq!(st.repository_root(), Some("/other".to_string()));
    st.set_repository_root(None);
    assert_eq!(st.repository_root(), None);
}

#[test]
fn debounce_drops_second_request_within_interval() {
    let mut st = GitState::new();
    assert!(st.emit_status_changed(100));
    assert!(!st.emit_status_changed(599));
    assert!(st.emit_status_changed(600));
    assert!(!st.emit_status_changed(1099));
    assert!(st.emit_status_changed(1100));
}

#[test]
fn debounce_dropped_request_does_not_reset_clock() {
    let mut st = GitState::new();
    assert!(st.emit_status_changed(0));
    assert!(!st.emit_status_changed(499));
    assert!(st.emit_status_changed(500));
}

#[test]
fn watcher_plan_transitions() {
    let mut st = GitState::new();
    assert_eq!(st.watcher_plan(), WatcherPlan::TearDown);
    st.set_repository_root(Some("/r".to_string()));
    assert_eq!(st.watcher_plan(), WatcherPlan::Arm("/r".to_string()));
    st.note_watcher_armed("/r".to_string());
    assert_eq!(st.watcher_plan(), WatcherPlan::Keep);
    st.set_repository_root(Some("/s".to_string()));
    assert_eq!(st.watcher_plan(), WatcherPlan::Arm("/s".to_string()));
    st.set_repository_root(None);
    assert_eq!(st.watcher_plan(), WatcherPlan::TearDown);
    st.note_watcher_dropped();
    assert_eq!(st.watcher_plan(), WatcherPlan::TearDown);
}

fn entry(path: &str, flags: StatusFlags) -> RawEntry {
    RawEntry {
        path: path.to_string(),
        flags,
        head_rename: None,
        wt_rename: None,
    }
}

#[test]
fn conflict_outranks_other_workdir_classifications() {
    let mut f = flags_none();
    f.conflicted = true;
    f.wt_modified = true;
    let snap = assemble_status("/r", None, true, 0, 0, &vec![entry("c.txt", f)]);
    assert_eq!(
        snap.changes,
        vec![GitFileChange {
            path: "c.txt".to_string(),
            status: GitFileStatus::Conflicted,
            staged: false,
        }]
    );
    assert!(snap.untracked.is_empty());
}

#[test]
fn conflict_outranks_untracked_classification() {
    let mut f = flags_none();
    f.conflicted = true;
    f.wt_new = true;
    let snap = assemble_status("/r", None, true, 0, 0, &vec![entry("c.txt", f)]);
    assert_eq!(
        snap.changes,
        vec![GitFileChange {
            path: "c.txt".to_string(),
            status: GitFileStatus::Conflicted,
            staged: false,
        }]
    );
    assert!(snap.untracked.is_empty());
}

#[test]
fn head_fields_mapping() {
    assert_eq!(
        head_fields(HeadInfo::Branch(Some("main".to_string()))),
        (Some("main".to_string()), false)
    );
    assert_eq!(head_fields(HeadInfo::Branch(None)), (None, false));
    assert_eq!(head_fields(HeadInfo::Detached), (None, true));
}

#[test]
fn ahead_behind_counts_fold() {
    assert_eq!(ab_counts(None), (0, 0));
    assert_eq!(ab_counts(Some((3, 4))), (3, 4));
    assert_eq!(ab_counts(Some((u32::MAX as usize + 7, 0))), (u32::MAX, 0));
}

#[test]
fn best_fit_defaults_to_modified() {
    assert_eq!(best_fit_status(flags_none()), GitFileStatus::Modified);
    let mut f = flags_none();
    f.wt_new = true;
    assert_eq!(best_fit_status(f), GitFileStatus::Untracked);
}

#[test]
fn net_count_is_never_negative() {
    assert_eq!(net_count(2, 5), 3);
    assert_eq!(net_count(5, 5), 0);
    assert_eq!(net_count(5, 2), 0);
}

#[test]
fn staged_len_counts_staged_changes() {
    let mut snap = empty_snapshot("/r");
    snap.staged_changes = vec![
        GitFileChange {
            path: "a".to_string(),
            status: GitFileStatus::Added,
            staged: true,
        },
        GitFileChange {
            path: "b".to_string(),
            status: GitFileStatus::Modified,
            staged: true,
        },
    ];
    assert_eq!(staged_len(&snap), 2);
    assert_eq!(staged_len(&empty_snapshot("/r")), 0);
}

fn raw_commit(hash: &str, msg: &str) -> CommitRaw {
    CommitRaw {
        hash: hash.to_string(),
        summary: Some(msg.to_string()),
        author_name: Some("Tester".to_string()),
        author_email: None,
        time_secs: 7,
        parents: vec![],
    }
}

#[test]
fn history_window_drops_offset_and_skips_unresolved() {
    let slots = vec![
        Some(raw_commit("1111111000000000000000000000000000000000", "one")),
        None,
        Some(raw_commit("2222222000000000000000000000000000000000", "two")),
        Some(raw_commit("3333333000000000000000000000000000000000", "three")),
    ];
    let all = window_history(slots.clone(), 0);
    assert_eq!(all.len(), 3);
    assert_eq!(all[0].message, "one");
    assert_eq!(all[1].message, "two");
    assert_eq!(all[0].short_hash, "1111111");
    assert_eq!(all[0].author_email, "");

    let tail = window_history(slots.clone(), 2);
    assert_eq!(tail.len(), 2);
    assert_eq!(tail[0].message, "two");
    assert_eq!(tail[1].message, "three");

    assert!(window_history(slots, 9).is_empty());
}

#[test]
fn error_messages() {
    assert_eq!(
        map_git_error(&GitError::NoRepository),
        "Git repository is not available"
    );
    assert_eq!(map_git_error(&GitError::Git("boom".to_string())), "boom");
    assert_eq!(map_git_error(&GitError::Io("io".to_string())), "io");
    assert_eq!(
        map_git_error(&GitError::InvalidInput("bad".to_string())),
        "bad"
    );
    assert_eq!(map_git_error(&GitError::Notify("w".to_string())), "w");
}
