//! The content resolver and diff builder: byte decoding with a binary
//! flag, language inference from a path's extension, and the
//! working-vs-HEAD and staged-vs-HEAD content pairs.

use vstd::prelude::*;

use crate::raw;
use crate::repository::open_repository;
use crate::text::push_char;
use crate::text::str_eq;
use crate::types::DiffModel;
use crate::types::GitDiff;
use crate::GitResult;
use vstd::utf8::decode_utf8;
use vstd::utf8::is_ascii_chars;
use vstd::utf8::valid_utf8;

verus! {

/// What `String::from_utf8_lossy` yields on these bytes: a function of
/// the bytes alone.
pub uninterp spec fn lossy_decode(bytes: Seq<u8>) -> Seq<char>;

/// What `str::to_lowercase` yields on these characters: a function of the
/// characters alone.
pub uninterp spec fn lower_of(s: Seq<char>) -> Seq<char>;

/// The documented ASCII lowercase mapping of one character.
pub open spec fn ascii_lower_char(c: char) -> char {
    let u = c as u32;
    if 0x41 <= u && u <= 0x5A {
        ((u + 0x20) as char)
    } else {
        c
    }
}

/// Relies on `core::str::from_utf8`: accepts exactly the valid UTF-8
/// byte sequences and decodes them.
#[verifier::external_body]
fn utf8_decode(bytes: &[u8]) -> (r: Option<String>)
    ensures
        r is Some <==> valid_utf8(bytes@),
        (match r {
            Some(s) => s@ == decode_utf8(bytes@),
            None => true,
        }),
{
    match core::str::from_utf8(bytes) {
        Ok(s) => Some(s.to_string()),
        Err(_) => None,
    }
}

/// Relies on `String::from_utf8_lossy`: best-effort decoding with
/// replacement characters, a function of the bytes alone.
#[verifier::external_body]
fn utf8_decode_lossy(bytes: &[u8]) -> (r: String)
    ensures
        r@ == lossy_decode(bytes@),
{
    String::from_utf8_lossy(bytes).into_owned()
}

/// Relies on `str::to_lowercase`: the Unicode lowercase of the string, a
/// function of the characters alone; on ASCII input it is the documented
/// per-character mapping.
#[verifier::external_body]
fn lowercase_str(s: &str) -> (r: String)
    ensures
        r@ == lower_of(s@),
        is_ascii_chars(s@) ==> r@ == s@.map_values(|c: char| ascii_lower_char(c)),
{
    s.to_lowercase()
}

/// The bytes contain a NUL byte.
pub open spec fn contains_nul(b: Seq<u8>) -> bool {
    exists|i: int| 0 <= i < b.len() && b[i] == 0
}

/// The engine's decoding policy. Empty bytes decode to an empty,
/// non-binary text. Valid UTF-8 decodes strictly, binary exactly when a
/// NUL byte occurs. Anything else decodes lossily and is always binary.
pub open spec fn spec_decode(b: Seq<u8>) -> (Seq<char>, bool) {
    if b.len() == 0 {
        (Seq::empty(), false)
    } else if valid_utf8(b) {
        (decode_utf8(b), contains_nul(b))
    } else {
        (lossy_decode(b), true)
    }
}

/// Decodes raw bytes to text with a binary flag, per the engine's
/// decoding policy.
pub fn decode_bytes(bytes: &[u8]) -> (r: (String, bool))
    ensures
        r.0@ == spec_decode(bytes@).0,
        r.1 == spec_decode(bytes@).1,
{
    let n = bytes.len();
    if n == 0 {
        return (String::new(), false);
    }
    let mut looks_binary = false;
    let mut i: usize = 0;
    while i < n
        invariant
            i <= n,
            n == bytes@.len(),
            looks_binary == contains_nul(bytes@.take(i as int)),
        decreases n - i,
    {
        if bytes[i] == 0 {
            looks_binary = true;
        }
        proof {
            assert(bytes@.take(i + 1).drop_last() =~= bytes@.take(i as int));
            assert(bytes@.take(i + 1).last() == bytes@[i as int]);
            assert(contains_nul(bytes@.take(i + 1)) == (contains_nul(bytes@.take(i as int))
                || bytes@[i as int] == 0)) by {
                if contains_nul(bytes@.take(i as int)) {
                    let w = choose|t: int|
                        0 <= t < i && bytes@.take(i as int)[t] == 0;
                    assert(bytes@.take(i + 1)[w] == 0);
                }
                if bytes@[i as int] == 0 {
                    assert(bytes@.take(i + 1)[i as int] == 0);
                }
                if contains_nul(bytes@.take(i + 1)) {
                    let w = choose|t: int|
                        0 <= t < i + 1 && #[trigger] bytes@.take(i + 1)[t] == 0;
                    if w < i as int {
                        assert(bytes@.take(i as int)[w] == 0);
                    }
                }
            }
        }
        i = i + 1;
    }
    proof {
        assert(bytes@.take(n as int) =~= bytes@);
    }
    match utf8_decode(bytes) {
        Some(text) => (text, looks_binary),
        None => (utf8_decode_lossy(bytes), true),
    }
}

/// The file-name part of a path: everything after the last slash.
pub open spec fn file_name(p: Seq<char>) -> Seq<char>
    decreases p.len(),
{
    if p.len() == 0 {
        p
    } else if p.last() == '/' {
        Seq::empty()
    } else {
        file_name(p.drop_last()).push(p.last())
    }
}

/// The extension of a file name: everything after the last dot, provided
/// that dot is not the name's first character. A name without such a dot
/// has no extension.
pub open spec fn ext_from_name(name: Seq<char>) -> Option<Seq<char>>
    decreases name.len(),
{
    if name.len() <= 1 {
        None
    } else if name.last() == '.' {
        Some(Seq::empty())
    } else {
        match ext_from_name(name.drop_last()) {
            Some(e) => Some(e.push(name.last())),
            None => None,
        }
    }
}

/// The fixed extension table; an unknown extension passes through.
pub open spec fn lang_tag(e: Seq<char>) -> Seq<char> {
    if e == "rs"@ {
        "rust"@
    } else if e == "ts"@ || e == "tsx"@ {
        "typescript"@
    } else if e == "js"@ || e == "jsx"@ {
        "javascript"@
    } else if e == "json"@ {
        "json"@
    } else if e == "toml"@ {
        "toml"@
    } else if e == "md"@ {
        "markdown"@
    } else if e == "yml"@ || e == "yaml"@ {
        "yaml"@
    } else if e == "css"@ {
        "css"@
    } else if e == "html"@ {
        "html"@
    } else {
        e
    }
}

/// The language tag of a path: the lowercased extension mapped through
/// the table, or "plaintext" for a path without an extension.
pub open spec fn language_of(p: Seq<char>) -> Seq<char> {
    match ext_from_name(file_name(p)) {
        Some(e) => lang_tag(lower_of(e)),
        None => "plaintext"@,
    }
}

/// The file name is the suffix after the last slash.
proof fn lemma_file_name_skip(p: Seq<char>, s: int)
    requires
        0 <= s <= p.len(),
        s == 0 || p[s - 1] == '/',
        forall|j: int| s <= j < p.len() ==> p[j] != '/',
    ensures
        file_name(p) == p.skip(s),
    decreases p.len(),
{
    if p.len() == s {
        assert(p.skip(s) =~= Seq::<char>::empty());
        if p.len() == 0 {
        } else {
            assert(p.last() == '/');
        }
    } else {
        assert(p.last() != '/');
        lemma_file_name_skip(p.drop_last(), s);
        assert(p.skip(s) =~= p.drop_last().skip(s).push(p.last()));
    }
}

/// A name whose last dot sits at `k` has the suffix after `k` as its
/// extension.
proof fn lemma_ext_at(name: Seq<char>, k: int)
    requires
        0 < k < name.len(),
        name[k] == '.',
        forall|j: int| k < j < name.len() ==> name[j] != '.',
    ensures
        ext_from_name(name) == Some(name.skip(k + 1)),
    decreases name.len(),
{
    if k == name.len() - 1 {
        assert(name.last() == '.');
        assert(name.skip(k + 1) =~= Seq::<char>::empty());
    } else {
        assert(name.last() != '.');
        lemma_ext_at(name.drop_last(), k);
        assert(name.skip(k + 1) =~= name.drop_last().skip(k + 1).push(name.last()));
    }
}

/// A name with no dot past its first character has no extension.
proof fn lemma_no_ext(name: Seq<char>)
    requires
        forall|j: int| 0 < j < name.len() ==> name[j] != '.',
    ensures
        ext_from_name(name) is None,
    decreases name.len(),
{
    if name.len() > 1 {
        assert(name.last() != '.');
        lemma_no_ext(name.drop_last());
    }
}

/// Infers the language tag for a path from its extension.
pub fn language_from_path(path: &str) -> (r: String)
    ensures
        r@ == language_of(path@),
        (match ext_from_name(file_name(path@)) {
            Some(e) => is_ascii_chars(e) ==> r@ == lang_tag(
                e.map_values(|c: char| ascii_lower_char(c)),
            ),
            None => true,
        }),
{
    let n = path.unicode_len();
    let mut last_slash: Option<usize> = None;
    let mut last_dot: Option<usize> = None;
    let mut i: usize = 0;
    while i < n
        invariant
            i <= n,
            n == path@.len(),
            (match last_slash {
                Some(v) => v < i && path@[v as int] == '/' && (forall|j: int|
                    v < j < i ==> path@[j] != '/'),
                None => forall|j: int| 0 <= j < i ==> path@[j] != '/',
            }),
            (match last_dot {
                Some(v) => v < i && path@[v as int] == '.' && (forall|j: int|
                    v < j < i ==> path@[j] != '.'),
                None => forall|j: int| 0 <= j < i ==> path@[j] != '.',
            }),
        decreases n - i,
    {
        let c = path.get_char(i);
        if c == '/' {
            last_slash = Some(i);
        }
        if c == '.' {
            last_dot = Some(i);
        }
        i = i + 1;
    }
    let name_start: usize = match last_slash {
        Some(v) => v + 1,
        None => 0,
    };
    proof {
        lemma_file_name_skip(path@, name_start as int);
    }
    let ghost name = path@.skip(name_start as int);
    match last_dot {
        Some(d) if d > name_start => {
            proof {
                assert(name[d - name_start] == '.');
                assert(forall|j: int|
                    (d - name_start) < j < name.len() ==> name[j] != '.');
                lemma_ext_at(name, d - name_start);
                assert(name.skip(d - name_start + 1) =~= path@.skip(d + 1));
            }
            let ext = path.substring_char(d + 1, n);
            let lc = lowercase_str(ext);
            proof {
                assert(ext@ =~= path@.skip(d + 1)) by {
                    assert(ext@ == path@.subrange(d + 1, n as int));
                }
            }
            let tag = if str_eq(lc.as_str(), "rs") {
                String::from_str("rust")
            } else if str_eq(lc.as_str(), "ts") || str_eq(lc.as_str(), "tsx") {
                String::from_str("typescript")
            } else if str_eq(lc.as_str(), "js") || str_eq(lc.as_str(), "jsx") {
                String::from_str("javascript")
            } else if str_eq(lc.as_str(), "json") {
                String::from_str("json")
            } else if str_eq(lc.as_str(), "toml") {
                String::from_str("toml")
            } else if str_eq(lc.as_str(), "md") {
                String::from_str("markdown")
            } else if str_eq(lc.as_str(), "yml") || str_eq(lc.as_str(), "yaml") {
                String::from_str("yaml")
            } else if str_eq(lc.as_str(), "css") {
                String::from_str("css")
            } else if str_eq(lc.as_str(), "html") {
                String::from_str("html")
            } else {
                lc
            };
            tag
        },
        _ => {
            proof {
                assert(forall|j: int| 0 < j < name.len() ==> name[j] != '.') by {
                    match last_dot {
                        Some(d) => {
                            assert(forall|j: int|
                                d < j < path@.len() ==> path@[j] != '.');
                        },
                        None => {},
                    }
                }
                lemma_no_ext(name);
            }
            String::from_str("plaintext")
        },
    }
}

/// Assembles the diff for one path from the raw bytes of its two content
/// sources: a missing side reads as empty text, the binary flag is the
/// disjunction of the two sides' flags, and the language comes from the
/// path's extension.
pub fn build_diff(path: &str, old_bytes: Option<Vec<u8>>, new_bytes: Option<Vec<u8>>) -> (d:
    GitDiff)
    ensures
        d@.path == path@,
        d@.language == language_of(path@),
        d@.old_content == (match old_bytes {
            Some(b) => spec_decode(b@).0,
            None => Seq::<char>::empty(),
        }),
        d@.new_content == (match new_bytes {
            Some(b) => spec_decode(b@).0,
            None => Seq::<char>::empty(),
        }),
        d@.binary == ((match old_bytes {
            Some(b) => spec_decode(b@).1,
            None => false,
        }) || (match new_bytes {
            Some(b) => spec_decode(b@).1,
            None => false,
        })),
{
    let (old_content, old_binary) = match &old_bytes {
        Some(b) => decode_bytes(b.as_slice()),
        None => (String::new(), false),
    };
    let (new_content, new_binary) = match &new_bytes {
        Some(b) => decode_bytes(b.as_slice()),
        None => (String::new(), false),
    };
    GitDiff {
        path: String::from_str(path),
        old_content,
        new_content,
        language: language_from_path(path),
        binary: old_binary || new_binary,
    }
}

/// The working-vs-HEAD diff for one path: old content from the committed
/// tree, new content from the working directory, either side empty where
/// the path is absent.
pub fn working_diff(root: &str, path: &str) -> (r: GitResult<GitDiff>)
    ensures
        (match r {
            Ok(d) => d@.path == path@ && d@.language == language_of(path@),
            Err(e) => e is Git || e is NoRepository,
        }),
{
    let repo = match open_repository(root) {
        Ok(x) => x,
        Err(e) => { return Err(e); },
    };
    let old_bytes = raw::read_head_bytes(&repo, path);
    let new_bytes = raw::read_workdir_bytes(&repo, path);
    Ok(build_diff(path, old_bytes, new_bytes))
}

/// The staged-vs-HEAD diff for one path: old content from the committed
/// tree, new content from the staging snapshot, either side empty where
/// the path is absent.
pub fn staged_diff(root: &str, path: &str) -> (r: GitResult<GitDiff>)
    ensures
        (match r {
            Ok(d) => d@.path == path@ && d@.language == language_of(path@),
            Err(e) => e is Git || e is NoRepository,
        }),
{
    let repo = match open_repository(root) {
        Ok(x) => x,
        Err(e) => { return Err(e); },
    };
    let old_bytes = raw::read_head_bytes(&repo, path);
    let new_bytes = raw::read_index_bytes(&repo, path);
    Ok(build_diff(path, old_bytes, new_bytes))
}

} // verus!
