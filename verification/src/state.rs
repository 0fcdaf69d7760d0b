//! The repository state context: tracked root, time-boxed status cache,
//! watcher bookkeeping and the debounced notification gate.
//!
//! Every operation that depends on the clock takes the current time in
//! milliseconds as an argument, so the whole state machine is plain logic;
//! the host process reads the clock, arms the filesystem watcher and
//! delivers notifications.

use vstd::prelude::*;

use crate::types::GitRepositoryStatus;

verus! {

/// How long a stored status snapshot stays fresh, in milliseconds.
pub const STATUS_CACHE_TTL_MS: u64 = 5000;

/// Minimum spacing of delivered change notifications, in milliseconds.
pub const STATUS_EVENT_DEBOUNCE_MS: u64 = 500;

/// What the caller must do to the filesystem watcher.
#[derive(Debug, Clone, PartialEq, Eq)]
pub enum WatcherPlan {
    /// No root is tracked: tear any watcher down.
    TearDown,
    /// The armed watcher already covers the tracked root: leave it.
    Keep,
    /// Arm a new recursive watcher on this root (tearing down any other).
    Arm(String),
}

/// The tracked repository root, the status cache with its timestamp, the
/// root the watcher is armed for, and the last delivered notification
/// time.
pub struct GitState {
    pub repository_root: Option<String>,
    pub status_cache: Option<GitRepositoryStatus>,
    pub cache_timestamp: Option<u64>,
    pub watched_root: Option<String>,
    pub last_emit: Option<u64>,
}

/// The state at process start: nothing tracked, nothing cached.
pub open spec fn init_state() -> GitState {
    GitState {
        repository_root: None,
        status_cache: None,
        cache_timestamp: None,
        watched_root: None,
        last_emit: None,
    }
}

/// The state after a snapshot is stored at time `t`.
pub open spec fn spec_store(s: GitState, snap: GitRepositoryStatus, t: u64) -> GitState {
    GitState {
        status_cache: Some(snap),
        cache_timestamp: Some(t),
        ..s
    }
}

/// The state after the cache is invalidated.
pub open spec fn spec_invalidate(s: GitState) -> GitState {
    GitState { status_cache: None, cache_timestamp: None, ..s }
}

/// The state and the delivery decision after a notification request at
/// time `now`: delivered exactly when no delivery happened yet or the
/// last one is at least the debounce interval old.
pub open spec fn spec_emit(s: GitState, now: u64) -> (GitState, bool) {
    let deliver = match s.last_emit {
        None => true,
        Some(p) => p + STATUS_EVENT_DEBOUNCE_MS <= now,
    };
    if deliver {
        (GitState { last_emit: Some(now), ..s }, true)
    } else {
        (s, false)
    }
}

impl GitState {
    /// Creates the initial, empty context.
    pub fn new() -> (s: GitState)
        ensures
            s == init_state(),
    {
        GitState {
            repository_root: None,
            status_cache: None,
            cache_timestamp: None,
            watched_root: None,
            last_emit: None,
        }
    }

    /// The cached snapshot is fresh at `now_ms`: it was stored no longer
    /// than the freshness window ago.
    pub open spec fn cache_fresh(self, now_ms: u64) -> bool {
        match self.cache_timestamp {
            Some(t) => now_ms <= t + STATUS_CACHE_TTL_MS,
            None => false,
        }
    }

    /// The snapshot a read at `now_ms` is served from the cache, if any.
    pub open spec fn spec_cached(self, now_ms: u64) -> Option<GitRepositoryStatus> {
        if self.cache_fresh(now_ms) && self.status_cache is Some {
            self.status_cache
        } else {
            None
        }
    }

    /// Sets or clears the tracked repository root; the cache is always
    /// reset to empty.
    pub fn set_repository_root(&mut self, root: Option<String>)
        ensures
            final(self).repository_root == root,
            final(self).status_cache is None,
            final(self).cache_timestamp is None,
            final(self).watched_root == old(self).watched_root,
            final(self).last_emit == old(self).last_emit,
    {
        self.repository_root = root;
        self.invalidate_status_cache();
    }

    /// The currently tracked repository root.
    pub fn repository_root(&self) -> (r: Option<String>)
        ensures
            r == self.repository_root,
    {
        match &self.repository_root {
            Some(p) => Some(p.clone()),
            None => None,
        }
    }

    /// Serves the stored snapshot while it is fresh; a stale or empty
    /// cache yields nothing and the caller must recompute.
    pub fn get_cached_status(&self, now_ms: u64) -> (r: Option<&GitRepositoryStatus>)
        ensures
            r is Some <==> self.spec_cached(now_ms) is Some,
            (match r {
                Some(s) => self.spec_cached(now_ms) == Some(*s),
                None => true,
            }),
    {
        match (&self.status_cache, &self.cache_timestamp) {
            (Some(snap), Some(t)) => {
                let fresh = if now_ms <= *t {
                    true
                } else {
                    now_ms - *t <= STATUS_CACHE_TTL_MS
                };
                if fresh {
                    Some(snap)
                } else {
                    None
                }
            },
            _ => None,
        }
    }

    /// Stores a freshly computed snapshot at time `now_ms`.
    pub fn store_status_cache(&mut self, status: GitRepositoryStatus, now_ms: u64)
        ensures
            *final(self) == spec_store(*old(self), status, now_ms),
    {
        self.status_cache = Some(status);
        self.cache_timestamp = Some(now_ms);
    }

    /// Destructively resets the cache to empty; idempotent.
    pub fn invalidate_status_cache(&mut self)
        ensures
            *final(self) == spec_invalidate(*old(self)),
    {
        self.status_cache = None;
        self.cache_timestamp = None;
    }

    /// The debounce gate: decides whether a "status changed" notification
    /// is delivered now, and records the delivery time when it is.
    pub fn emit_status_changed(&mut self, now_ms: u64) -> (emitted: bool)
        ensures
            *final(self) == spec_emit(*old(self), now_ms).0,
            emitted == spec_emit(*old(self), now_ms).1,
    {
        let deliver = match self.last_emit {
            None => true,
            Some(p) => now_ms >= p && now_ms - p >= STATUS_EVENT_DEBOUNCE_MS,
        };
        if deliver {
            self.last_emit = Some(now_ms);
        }
        deliver
    }

    /// What the watcher must become for the current root: torn down when
    /// no root is tracked, kept when it already covers the root, armed
    /// anew otherwise.
    pub fn watcher_plan(&self) -> (r: WatcherPlan)
        ensures
            (match self.repository_root {
                None => r == WatcherPlan::TearDown,
                Some(root) => {
                    if self.watched_root matches Some(w) && w@ == root@ {
                        r == WatcherPlan::Keep
                    } else {
                        r matches WatcherPlan::Arm(p) && p@ == root@
                    }
                },
            }),
    {
        match &self.repository_root {
            None => WatcherPlan::TearDown,
            Some(root) => {
                let covered = match &self.watched_root {
                    Some(w) => crate::text::str_eq(w.as_str(), root.as_str()),
                    None => false,
                };
                if covered {
                    WatcherPlan::Keep
                } else {
                    WatcherPlan::Arm(root.clone())
                }
            },
        }
    }

    /// Records that a watcher is now armed for `root`.
    pub fn note_watcher_armed(&mut self, root: String)
        ensures
            *final(self) == (GitState { watched_root: Some(root), ..*old(self) }),
    {
        self.watched_root = Some(root);
    }

    /// Records that the watcher was torn down.
    pub fn note_watcher_dropped(&mut self)
        ensures
            *final(self) == (GitState { watched_root: None, ..*old(self) }),
    {
        self.watched_root = None;
    }
}

/// Cache freshness law: a read strictly inside the freshness window after
/// a store is served exactly the stored snapshot; a read past the window,
/// or after an invalidation, is served nothing and forces recomputation.
pub proof fn lemma_cache_freshness(s0: GitState, snap: GitRepositoryStatus, t: u64, now: u64)
    ensures
        now <= t + STATUS_CACHE_TTL_MS ==> spec_store(s0, snap, t).spec_cached(now) == Some(snap),
        now > t + STATUS_CACHE_TTL_MS ==> spec_store(s0, snap, t).spec_cached(now) is None,
        spec_invalidate(spec_store(s0, snap, t)).spec_cached(now) is None,
{
}

/// Debounce law: of two notification requests less than the debounce
/// interval apart, only the first is delivered; at or beyond the
/// interval, both are.
pub proof fn lemma_debounce(s: GitState, t1: u64, t2: u64)
    requires
        spec_emit(s, t1).1,
    ensures
        t2 < t1 + STATUS_EVENT_DEBOUNCE_MS ==> !spec_emit(spec_emit(s, t1).0, t2).1,
        t2 >= t1 + STATUS_EVENT_DEBOUNCE_MS ==> spec_emit(spec_emit(s, t1).0, t2).1,
{
}

} // verus!
