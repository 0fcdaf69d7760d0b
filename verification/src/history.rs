//! History traversal: reads commits from HEAD, oldest first, with offset
//! and limit.

use vstd::prelude::*;

use crate::raw;
use crate::repository::open_repository;
use crate::types::CommitInfo;
use crate::types::CommitModel;
use crate::GitResult;

verus! {

/// One commit's fields as the traversal reports them, before the
/// engine's defaults are applied.
#[derive(Debug, Clone, PartialEq, Eq)]
pub struct CommitRaw {
    pub hash: String,
    pub summary: Option<String>,
    pub author_name: Option<String>,
    pub author_email: Option<String>,
    pub time_secs: i64,
    pub parents: Vec<String>,
}

/// Model of [`CommitRaw`].
pub ghost struct CommitRawModel {
    pub hash: Seq<char>,
    pub summary: Option<Seq<char>>,
    pub author_name: Option<Seq<char>>,
    pub author_email: Option<Seq<char>>,
    pub time_secs: i64,
    pub parents: Seq<Seq<char>>,
}

impl View for CommitRaw {
    type V = CommitRawModel;

    open spec fn view(&self) -> CommitRawModel {
        CommitRawModel {
            hash: self.hash@,
            summary: (match self.summary {
                Some(s) => Some(s@),
                None => None,
            }),
            author_name: (match self.author_name {
                Some(s) => Some(s@),
                None => None,
            }),
            author_email: (match self.author_email {
                Some(s) => Some(s@),
                None => None,
            }),
            time_secs: self.time_secs,
            parents: self.parents@.map_values(|p: String| p@),
        }
    }
}

/// The commit record the engine derives from raw commit fields: the short
/// hash is the first seven characters of the hash (or all of a shorter
/// one), a missing summary reads "No message", a missing author name
/// "Unknown", a missing author email stays empty.
pub open spec fn commit_info_of(c: CommitRawModel) -> CommitModel {
    CommitModel {
        hash: c.hash,
        short_hash: (if c.hash.len() <= 7 {
            c.hash
        } else {
            c.hash.take(7)
        }),
        message: (match c.summary {
            Some(m) => m,
            None => "No message"@,
        }),
        author_name: (match c.author_name {
            Some(n) => n,
            None => "Unknown"@,
        }),
        author_email: (match c.author_email {
            Some(e) => e,
            None => Seq::empty(),
        }),
        timestamp: c.time_secs,
        parent_hashes: c.parents,
    }
}

/// Applies the engine's defaults to one raw commit.
pub fn build_commit_info(c: CommitRaw) -> (r: CommitInfo)
    ensures
        r@ == commit_info_of(c@),
{
    let hash_len = c.hash.as_str().unicode_len();
    let short_hash = if hash_len <= 7 {
        c.hash.clone()
    } else {
        let s = c.hash.as_str().substring_char(0, 7);
        String::from_str(s)
    };
    let message = match c.summary {
        Some(m) => m,
        None => String::from_str("No message"),
    };
    let author_name = match c.author_name {
        Some(n) => n,
        None => String::from_str("Unknown"),
    };
    let author_email = match c.author_email {
        Some(e) => e,
        None => String::new(),
    };
    proof {
        assert(c.hash@.subrange(0, 7) =~= c.hash@.take(7));
    }
    CommitInfo {
        hash: c.hash,
        short_hash,
        message,
        author_name,
        author_email,
        timestamp: c.time_secs,
        parent_hashes: c.parents,
    }
}

/// The model of a walked slot list: each slot holds the raw fields of
/// its resolved commit, or nothing for a slot whose commit could not be
/// resolved.
pub open spec fn slots_model(v: Seq<Option<CommitRaw>>) -> Seq<Option<CommitRawModel>> {
    v.map_values(
        |o: Option<CommitRaw>|
            match o {
                Some(c) => Some(c@),
                None => None,
            },
    )
}

/// The commit records of the resolved slots, in slot order.
pub open spec fn resolved_of(s: Seq<Option<CommitRawModel>>) -> Seq<CommitModel>
    decreases s.len(),
{
    if s.len() == 0 {
        Seq::empty()
    } else {
        let rest = resolved_of(s.drop_last());
        match s.last() {
            Some(c) => rest.push(commit_info_of(c)),
            None => rest,
        }
    }
}

/// The history window over a slot list: the first `offset` slots are
/// dropped, the resolved remainder is kept in order.
pub open spec fn window_of(s: Seq<Option<CommitRawModel>>, offset: int) -> Seq<CommitModel> {
    if 0 <= offset <= s.len() {
        resolved_of(s.skip(offset))
    } else {
        Seq::empty()
    }
}

/// At most one record per slot.
proof fn lemma_resolved_len(s: Seq<Option<CommitRawModel>>)
    ensures
        resolved_of(s).len() <= s.len(),
    decreases s.len(),
{
    if s.len() > 0 {
        lemma_resolved_len(s.drop_last());
    }
}

/// Peeling the first slot off the front of a slot list.
proof fn lemma_resolved_first(s: Seq<Option<CommitRawModel>>)
    requires
        s.len() > 0,
    ensures
        resolved_of(s) == (match s[0] {
            Some(c) => seq![commit_info_of(c)] + resolved_of(s.skip(1)),
            None => resolved_of(s.skip(1)),
        }),
    decreases s.len(),
{
    if s.len() == 1 {
        assert(s.drop_last() =~= Seq::<Option<CommitRawModel>>::empty());
        assert(s.skip(1) =~= Seq::<Option<CommitRawModel>>::empty());
        assert(s.last() == s[0]);
        match s[0] {
            Some(c) => {
                assert(resolved_of(s) =~= seq![commit_info_of(c)] + resolved_of(s.skip(1)));
            },
            None => {},
        }
    } else {
        let t = s.drop_last();
        lemma_resolved_first(t);
        assert(t[0] == s[0]);
        assert(s.skip(1).drop_last() =~= t.skip(1));
        assert(s.skip(1).last() == s.last());
        match s.last() {
            Some(d) => {
                assert(resolved_of(s) == resolved_of(t).push(commit_info_of(d)));
                assert(resolved_of(s.skip(1)) == resolved_of(t.skip(1)).push(commit_info_of(d)));
                match s[0] {
                    Some(c) => {
                        assert((seq![commit_info_of(c)] + resolved_of(t.skip(1))).push(
                            commit_info_of(d),
                        ) =~= seq![commit_info_of(c)] + resolved_of(t.skip(1)).push(
                            commit_info_of(d),
                        ));
                    },
                    None => {},
                }
            },
            None => {
                assert(resolved_of(s) == resolved_of(t));
                assert(resolved_of(s.skip(1)) == resolved_of(t.skip(1)));
            },
        }
    }
}

/// Applies the offset window to the walked slots: the first `offset`
/// slots are dropped, and the resolved remainder becomes commit records,
/// in order, with the engine's per-commit defaults applied.
pub fn window_history(slots: Vec<Option<CommitRaw>>, offset: u32) -> (r: Vec<CommitInfo>)
    ensures
        r@.map_values(|c: CommitInfo| c@) == window_of(slots_model(slots@), offset as int),
        r@.len() <= (if offset <= slots@.len() {
            slots@.len() - offset
        } else {
            0int
        }),
{
    let ghost m0 = slots_model(slots@);
    let mut rest = slots;
    let mut dropped: u32 = 0;
    while dropped < offset && rest.len() > 0
        invariant
            dropped <= offset,
            dropped <= m0.len(),
            dropped + rest@.len() == m0.len(),
            slots_model(rest@) == m0.skip(dropped as int),
        decreases offset - dropped,
    {
        let ghost mpre = slots_model(rest@);
        rest.remove(0);
        proof {
            assert(slots_model(rest@) =~= mpre.skip(1));
            assert(mpre.skip(1) =~= m0.skip(dropped + 1));
        }
        dropped = dropped + 1;
    }
    proof {
        if offset as int <= m0.len() {
            assert(dropped == offset);
        } else {
            assert(rest@.len() == 0);
            assert(slots_model(rest@) =~= Seq::<Option<CommitRawModel>>::empty());
        }
        assert(resolved_of(slots_model(rest@)) == window_of(m0, offset as int));
    }
    let ghost target = window_of(m0, offset as int);
    let ghost n1 = rest@.len() as int;
    let mut out: Vec<CommitInfo> = Vec::new();
    while rest.len() > 0
        invariant
            out@.map_values(|c: CommitInfo| c@) + resolved_of(slots_model(rest@)) == target,
            out@.len() + rest@.len() <= n1,
        decreases rest@.len(),
    {
        let ghost mpre = slots_model(rest@);
        let ghost out_pre = out@;
        let slot = rest.remove(0);
        proof {
            lemma_resolved_first(mpre);
            assert(slots_model(rest@) =~= mpre.skip(1));
            assert(mpre[0] == (match slot {
                Some(c) => Some(c@),
                None => None,
            }));
        }
        match slot {
            Some(c) => {
                let ghost cm = c@;
                out.push(build_commit_info(c));
                proof {
                    assert(out@.map_values(|x: CommitInfo| x@) =~= out_pre.map_values(
                        |x: CommitInfo| x@,
                    ).push(commit_info_of(cm)));
                    assert(out_pre.map_values(|x: CommitInfo| x@).push(commit_info_of(cm))
                        + resolved_of(mpre.skip(1)) =~= out_pre.map_values(|x: CommitInfo| x@) + (
                    seq![commit_info_of(cm)] + resolved_of(mpre.skip(1))));
                }
            },
            None => {},
        }
    }
    proof {
        assert(slots_model(rest@) =~= Seq::<Option<CommitRawModel>>::empty());
        assert(out@.map_values(|c: CommitInfo| c@) + resolved_of(
            Seq::<Option<CommitRawModel>>::empty(),
        ) =~= out@.map_values(|c: CommitInfo| c@));
        if offset as int <= m0.len() {
            lemma_resolved_len(m0.skip(offset as int));
        }
    }
    out
}

/// Walks history from HEAD oldest-first, collects one slot per walked
/// item (a resolved commit, or an empty slot for an item that cannot be
/// resolved), and windows the slots: `offset` slots dropped, at most
/// `limit` slots walked past them. An unresolvable HEAD yields an empty
/// list, not an error.
pub fn read_history(root: &str, offset: u32, limit: u32) -> (r: GitResult<Vec<CommitInfo>>)
    ensures
        (match r {
            Ok(v) => v@.len() <= limit,
            Err(e) => e is Git || e is NoRepository,
        }),
{
    let repo = match open_repository(root) {
        Ok(x) => x,
        Err(e) => { return Err(e); },
    };
    let walk_opt = match raw::history_walk(&repo) {
        Ok(w) => w,
        Err(e) => { return Err(raw::err_to_git(e)); },
    };
    let mut walk = match walk_opt {
        Some(w) => w,
        None => { return Ok(Vec::new()); },
    };
    let off: u64 = offset as u64;
    let total: u64 = off + limit as u64;
    let mut slots: Vec<Option<CommitRaw>> = Vec::new();
    let mut i: u64 = 0;
    let mut exhausted = false;
    while i < total && !exhausted
        invariant
            i <= total,
            total == off + limit,
            off == offset,
            slots@.len() == i,
        decreases (total - i) + (if exhausted {
            0int
        } else {
            1int
        }),
    {
        match raw::revwalk_next(&mut walk) {
            None => {
                exhausted = true;
            },
            Some(slot) => {
                match slot {
                    Some(oid) => {
                        slots.push(raw::find_commit_raw(&repo, oid));
                    },
                    None => {
                        slots.push(None);
                    },
                }
                i = i + 1;
            },
        }
    }
    let out = window_history(slots, offset);
    Ok(out)
}

} // verus!
