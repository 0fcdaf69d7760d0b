//! Pure text utilities: path normalization, lexicographic ordering of
//! paths, sorted deduplication, and whitespace tests.

use vstd::prelude::*;

verus! {

/// Relies on `String::push`: appends exactly one character to the string.
#[verifier::external_body]
pub(crate) fn push_char(s: &mut String, c: char)
    ensures
        final(s)@ == old(s)@.push(c),
{
    s.push(c);
}

/// A backslash turns into a forward slash; every other character stays.
pub open spec fn norm_char(c: char) -> char {
    if c == '\\' {
        '/'
    } else {
        c
    }
}

/// Root-relative, forward-slash-separated form of a path.
pub open spec fn norm_path(s: Seq<char>) -> Seq<char> {
    s.map_values(|c: char| norm_char(c))
}

/// Rewrites a repository-relative path to forward slashes.
pub fn normalize_path(path: &str) -> (r: String)
    ensures
        r@ == norm_path(path@),
{
    let n = path.unicode_len();
    let mut out = String::new();
    let mut i: usize = 0;
    while i < n
        invariant
            i <= n,
            n == path@.len(),
            out@ == norm_path(path@.take(i as int)),
        decreases n - i,
    {
        let c = path.get_char(i);
        if c == '\\' {
            push_char(&mut out, '/');
        } else {
            push_char(&mut out, c);
        }
        proof {
            assert(path@.take(i + 1).map_values(|ch: char| norm_char(ch)) =~= path@.take(
                i as int,
            ).map_values(|ch: char| norm_char(ch)).push(norm_char(path@[i as int])));
        }
        i = i + 1;
    }
    proof {
        assert(path@.take(n as int) =~= path@);
    }
    out
}

/// The Unicode `White_Space` code points, as documented for
/// `char::is_whitespace`.
pub open spec fn is_space_char(c: char) -> bool {
    let u = c as u32;
    ||| u == 0x09
    ||| u == 0x0A
    ||| u == 0x0B
    ||| u == 0x0C
    ||| u == 0x0D
    ||| u == 0x20
    ||| u == 0x85
    ||| u == 0xA0
    ||| u == 0x1680
    ||| (0x2000 <= u && u <= 0x200A)
    ||| u == 0x2028
    ||| u == 0x2029
    ||| u == 0x202F
    ||| u == 0x205F
    ||| u == 0x3000
}

/// A string is blank when every character is whitespace; the empty string
/// is blank.
pub open spec fn blank(s: Seq<char>) -> bool {
    forall|i: int| 0 <= i < s.len() ==> is_space_char(s[i])
}

fn is_space(c: char) -> (r: bool)
    ensures
        r == is_space_char(c),
{
    let u = c as u32;
    u == 0x09 || u == 0x0A || u == 0x0B || u == 0x0C || u == 0x0D || u == 0x20 || u == 0x85 || u
        == 0xA0 || u == 0x1680 || (0x2000 <= u && u <= 0x200A) || u == 0x2028 || u == 0x2029 || u
        == 0x202F || u == 0x205F || u == 0x3000
}

/// Decides whether a string consists of whitespace alone.
pub fn str_is_blank(s: &str) -> (r: bool)
    ensures
        r == blank(s@),
{
    let n = s.unicode_len();
    let mut i: usize = 0;
    while i < n
        invariant
            i <= n,
            n == s@.len(),
            forall|j: int| 0 <= j < i ==> is_space_char(s@[j]),
        decreases n - i,
    {
        if !is_space(s.get_char(i)) {
            return false;
        }
        i = i + 1;
    }
    true
}

/// Decides string equality by contents.
pub fn str_eq(a: &str, b: &str) -> (r: bool)
    ensures
        r == (a@ == b@),
{
    let sa = String::from_str(a);
    let sb = String::from_str(b);
    sa == sb
}

/// Strict lexicographic order on character sequences, by Unicode scalar
/// value, shorter prefixes first.
pub open spec fn lex_lt(a: Seq<char>, b: Seq<char>) -> bool
    decreases a.len(),
{
    if b.len() == 0 {
        false
    } else if a.len() == 0 {
        true
    } else if (a[0] as u32) < (b[0] as u32) {
        true
    } else if (b[0] as u32) < (a[0] as u32) {
        false
    } else {
        lex_lt(a.drop_first(), b.drop_first())
    }
}

/// The order is irreflexive.
pub proof fn lemma_lex_lt_irrefl(a: Seq<char>)
    ensures
        !lex_lt(a, a),
    decreases a.len(),
{
    if a.len() > 0 {
        lemma_lex_lt_irrefl(a.drop_first());
    }
}

/// The order is total: two sequences that are not ordered either way are
/// equal.
pub proof fn lemma_lex_lt_connex(a: Seq<char>, b: Seq<char>)
    requires
        !lex_lt(a, b),
        !lex_lt(b, a),
    ensures
        a == b,
    decreases a.len(),
{
    if a.len() == 0 {
        assert(b.len() == 0);
        assert(a =~= b);
    } else {
        assert(b.len() > 0);
        vstd::utf8::char_u32_cast(a[0], a[0] as u32);
        vstd::utf8::char_u32_cast(b[0], b[0] as u32);
        assert(a[0] == b[0]);
        lemma_lex_lt_connex(a.drop_first(), b.drop_first());
        assert(a.drop_first() == b.drop_first());
        assert(a.len() == b.len());
        assert forall|i: int| 0 <= i < a.len() implies a[i] == b[i] by {
            if i > 0 {
                assert(a[i] == a.drop_first()[i - 1]);
                assert(b[i] == b.drop_first()[i - 1]);
            }
        }
        assert(a =~= b);
    }
}

/// The order is transitive.
pub proof fn lemma_lex_lt_trans(a: Seq<char>, b: Seq<char>, c: Seq<char>)
    requires
        lex_lt(a, b),
        lex_lt(b, c),
    ensures
        lex_lt(a, c),
    decreases a.len(),
{
    if b.len() == 0 {
        // lex_lt(a, b) is then false
    } else if c.len() == 0 {
        // lex_lt(b, c) is then false
    } else if a.len() == 0 {
        // c is nonempty, so lex_lt(a, c)
    } else {
        if (a[0] as u32) == (b[0] as u32) && (b[0] as u32) == (c[0] as u32) {
            lemma_lex_lt_trans(a.drop_first(), b.drop_first(), c.drop_first());
        }
    }
}

/// Dropping an equal prefix does not change the order.
proof fn lemma_lex_lt_skip(a: Seq<char>, b: Seq<char>, i: int)
    requires
        0 <= i <= a.len(),
        i <= b.len(),
        forall|j: int| 0 <= j < i ==> a[j] == b[j],
    ensures
        lex_lt(a, b) == lex_lt(a.skip(i), b.skip(i)),
    decreases i,
{
    if i == 0 {
        assert(a.skip(0) =~= a);
        assert(b.skip(0) =~= b);
    } else {
        assert(a.len() > 0 && b.len() > 0);
        assert(a[0] == b[0]);
        assert(a.skip(i) =~= a.drop_first().skip(i - 1));
        assert(b.skip(i) =~= b.drop_first().skip(i - 1));
        assert(forall|j: int|
            0 <= j < i - 1 ==> a.drop_first()[j] == b.drop_first()[j]);
        lemma_lex_lt_skip(a.drop_first(), b.drop_first(), i - 1);
    }
}

/// Decides the lexicographic order on two strings.
pub fn str_lt(a: &str, b: &str) -> (r: bool)
    ensures
        r == lex_lt(a@, b@),
{
    let alen = a.unicode_len();
    let blen = b.unicode_len();
    let shorter = if alen < blen {
        alen
    } else {
        blen
    };
    let mut i: usize = 0;
    while i < shorter
        invariant
            i <= shorter,
            alen == a@.len(),
            blen == b@.len(),
            shorter == if alen < blen {
                alen
            } else {
                blen
            },
            forall|j: int| 0 <= j < i ==> a@[j] == b@[j],
        decreases shorter - i,
    {
        let ca = a.get_char(i);
        let cb = b.get_char(i);
        if (ca as u32) < (cb as u32) {
            proof {
                lemma_lex_lt_skip(a@, b@, i as int);
                assert(a@.skip(i as int)[0] == ca);
                assert(b@.skip(i as int)[0] == cb);
            }
            return true;
        }
        if (cb as u32) < (ca as u32) {
            proof {
                lemma_lex_lt_skip(a@, b@, i as int);
                assert(a@.skip(i as int)[0] == ca);
                assert(b@.skip(i as int)[0] == cb);
            }
            return false;
        }
        proof {
            vstd::utf8::char_u32_cast(ca, ca as u32);
            vstd::utf8::char_u32_cast(cb, cb as u32);
        }
        i = i + 1;
    }
    proof {
        lemma_lex_lt_skip(a@, b@, shorter as int);
        assert(lex_lt(a@, b@) == (alen < blen)) by {
            if alen < blen {
                assert(b@.skip(shorter as int).len() > 0);
            } else {
                assert(a@.skip(shorter as int).len() >= 0);
                assert(b@.skip(shorter as int).len() == 0);
            }
        }
    }
    alen < blen
}

/// Strictly ascending: every earlier element is lexicographically below
/// every later one.
pub open spec fn strictly_sorted(s: Seq<Seq<char>>) -> bool {
    forall|i: int, j: int| 0 <= i < j < s.len() ==> lex_lt(s[i], s[j])
}

/// A strictly sorted sequence holds no duplicates.
pub proof fn lemma_strictly_sorted_no_dup(s: Seq<Seq<char>>)
    requires
        strictly_sorted(s),
    ensures
        forall|i: int, j: int| 0 <= i < j < s.len() ==> s[i] != s[j],
{
    assert forall|i: int, j: int| 0 <= i < j < s.len() implies s[i] != s[j] by {
        lemma_lex_lt_irrefl(s[i]);
    }
}

/// Some element of `v` reads as `p`.
pub open spec fn contains_view(v: Seq<String>, p: Seq<char>) -> bool {
    exists|i: int| 0 <= i < v.len() && v[i]@ == p
}

/// Sorts paths ascending and removes duplicates.
///
/// The result is strictly sorted, and holds exactly the path contents of
/// the input, each once.
pub fn sort_dedup_paths(v: &Vec<String>) -> (r: Vec<String>)
    ensures
        strictly_sorted(r@.map_values(|s: String| s@)),
        forall|i: int| 0 <= i < r@.len() ==> contains_view(v@, #[trigger] r@[i]@),
        forall|i: int| 0 <= i < v@.len() ==> contains_view(r@, #[trigger] v@[i]@),
{
    let mut out: Vec<String> = Vec::new();
    let mut k: usize = 0;
    while k < v.len()
        invariant
            k <= v.len(),
            strictly_sorted(out@.map_values(|s: String| s@)),
            forall|i: int| 0 <= i < out@.len() ==> contains_view(v@, #[trigger] out@[i]@),
            forall|i: int| 0 <= i < k ==> contains_view(out@, #[trigger] v@[i]@),
        decreases v.len() - k,
    {
        let x: String = v[k].clone();
        let ghost out0 = out@;
        let mut j: usize = 0;
        while j < out.len() && str_lt(out[j].as_str(), x.as_str())
            invariant
                j <= out.len(),
                out@ == out0,
                x == v@[k as int],
                forall|t: int| 0 <= t < j ==> lex_lt(#[trigger] out@[t]@, x@),
            decreases out.len() - j,
        {
            j = j + 1;
        }
        let duplicate = j < out.len() && !str_lt(x.as_str(), out[j].as_str());
        if duplicate {
            proof {
                lemma_lex_lt_connex(x@, out@[j as int]@);
                assert(contains_view(out@, v@[k as int]@));
            }
        } else {
            proof {
                if j < out@.len() {
                    assert(lex_lt(x@, out@[j as int]@));
                }
            }
            out.insert(j, x);
            proof {
                let m = out@.map_values(|s: String| s@);
                let m0 = out0.map_values(|s: String| s@);
                assert forall|i1: int, i2: int| 0 <= i1 < i2 < m.len() implies lex_lt(
                    m[i1],
                    m[i2],
                ) by {
                    let jj = j as int;
                    if i1 < jj && i2 < jj {
                        assert(lex_lt(m0[i1], m0[i2]));
                    } else if i1 < jj && i2 == jj {
                        assert(lex_lt(out0[i1]@, v@[k as int]@));
                    } else if i1 < jj && i2 > jj {
                        assert(lex_lt(m0[i1], m0[i2 - 1]));
                    } else if i1 == jj && i2 > jj {
                        // x is below out0[jj], which is at or below out0[i2 - 1]
                        assert(lex_lt(v@[k as int]@, out0[jj]@));
                        if i2 - 1 > jj {
                            assert(lex_lt(m0[jj], m0[i2 - 1]));
                            lemma_lex_lt_trans(v@[k as int]@, out0[jj]@, out0[i2 - 1]@);
                        }
                    } else {
                        assert(i1 > jj && i2 > jj);
                        assert(lex_lt(m0[i1 - 1], m0[i2 - 1]));
                    }
                }
                assert(contains_view(out@, v@[k as int]@)) by {
                    assert(out@[j as int]@ == v@[k as int]@);
                }
                assert forall|i: int| 0 <= i < out@.len() implies contains_view(
                    v@,
                    #[trigger] out@[i]@,
                ) by {
                    if i < j as int {
                        assert(out@[i] == out0[i]);
                    } else if i == j as int {
                        assert(out@[i]@ == v@[k as int]@);
                    } else {
                        assert(out@[i] == out0[i - 1]);
                    }
                }
                assert forall|i: int| 0 <= i < k + 1 implies contains_view(
                    out@,
                    #[trigger] v@[i]@,
                ) by {
                    if i < k as int {
                        let w = choose|t: int| 0 <= t < out0.len() && out0[t]@ == v@[i]@;
                        if w < j as int {
                            assert(out@[w]@ == v@[i]@);
                        } else {
                            assert(out@[w + 1]@ == v@[i]@);
                        }
                    } else {
                        assert(out@[j as int]@ == v@[i]@);
                    }
                }
            }
        }
        k = k + 1;
    }
    out
}

} // verus!
