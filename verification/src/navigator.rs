//! Helpers of the terminal frontend's file navigator and connection list:
//! its own path rules, where downloads go, folder search by prefix, and how
//! statuses and protocols are coloured.

use vstd::prelude::*;
use vstd::string::*;
use crate::remote_path::{
    last_index_of, path_join, path_joined, rfind_char, root, root_path, strip_trailing,
    trim_end_char,
};
use crate::sftp::{home_or_current, opt_view};
use crate::text::{
    chars_of, has_prefix, lemma_trimmed_ends, lemma_trimmed_idempotent, lemma_trimmed_whole,
    lowercase, same_text, starts_with, to_lowercase, trim, trimmed,
};
use crate::types::{ProtocolKind, RemoteEntry, RemoteEntryKind};

verus! {

/// The navigator's absolute form of a path: trimmed, `/` for nothing or
/// `.`, a leading `/` added where missing.
pub open spec fn navigator_path(path: Seq<char>) -> Seq<char> {
    let t = trimmed(path);
    if t.len() == 0 || t == seq!['.'] {
        root()
    } else if t[0] == '/' {
        t
    } else {
        root() + t
    }
}

/// Making a path absolute as the navigator does, twice, gives what doing it
/// once gives.
pub proof fn lemma_navigator_path_idempotent(path: Seq<char>)
    ensures
        navigator_path(navigator_path(path)) == navigator_path(path),
{
    let t = trimmed(path);
    lemma_trimmed_ends(path);
    lemma_trimmed_idempotent(path);
    let n = navigator_path(path);
    if t.len() == 0 || t == seq!['.'] {
        lemma_trimmed_whole(root());
    } else if t[0] == '/' {
    } else {
        assert(n[0] == '/');
        assert(n.last() == t.last());
        lemma_trimmed_whole(n);
    }
    assert(n[0] == '/');
    assert(n != seq!['.']);
}

/// The directory above a navigator path: `/` for the root and for a path
/// with no `/` left after its trailing ones are dropped, else everything
/// before the last `/` (or `/` when that is the first character).
pub open spec fn parent_path(path: Seq<char>) -> Seq<char> {
    let current = navigator_path(path);
    if current == root() {
        current
    } else {
        let t = strip_trailing(current, '/');
        match last_index_of(t, '/') {
            Some(i) => if i == 0 {
                root()
            } else {
                t.subrange(0, i)
            },
            None => root(),
        }
    }
}

/// Makes a path absolute as the navigator does.
pub fn normalize_remote_path(path: &str) -> (r: String)
    ensures
        r@ == navigator_path(path@),
{
    let t = trim(path);
    proof {
        reveal_strlit(".");
        assert("."@ =~= seq!['.']);
    }
    if t.as_str().is_empty() || same_text(t.as_str(), ".") {
        return root_path();
    }
    if t.as_str().get_char(0) == '/' {
        t
    } else {
        let mut r = root_path();
        r.append(t.as_str());
        r
    }
}

/// The directory above a path, as the navigator goes up.
pub fn parent_remote_path(path: &str) -> (r: String)
    ensures
        r@ == parent_path(path@),
{
    let current = normalize_remote_path(path);
    let root = root_path();
    if same_text(current.as_str(), root.as_str()) {
        return current;
    }
    let t = trim_end_char(current.as_str(), '/');
    match rfind_char(t.as_str(), '/') {
        Some(index) => {
            if index == 0 {
                root
            } else {
                proof {
                    let ghost tv = t@;
                    assert(index < tv.len()) by {
                        lemma_last_index_in_range(tv, '/');
                    };
                }
                t.as_str().substring_char(0, index).to_owned()
            }
        },
        None => root,
    }
}

proof fn lemma_last_index_in_range(s: Seq<char>, c: char)
    ensures
        last_index_of(s, c) matches Some(i) ==> 0 <= i < s.len() && s[i] == c,
    decreases s.len(),
{
    if s.len() > 0 && s.last() != c {
        lemma_last_index_in_range(s.drop_last(), c);
    }
}

/// Going up from any path ends at a path that is the root or shorter than
/// the navigator's form of the path: going up repeatedly reaches the root.
pub proof fn lemma_parent_shrinks(path: Seq<char>)
    ensures
        parent_path(path) == root() || parent_path(path).len() < navigator_path(path).len(),
{
    let current = navigator_path(path);
    if current != root() {
        let t = strip_trailing(current, '/');
        lemma_strip_trailing_shorter(current, '/');
        lemma_last_index_in_range(t, '/');
    }
}

proof fn lemma_strip_trailing_shorter(s: Seq<char>, c: char)
    ensures
        strip_trailing(s, c).len() <= s.len(),
    decreases s.len(),
{
    if s.len() > 0 && s.last() == c {
        lemma_strip_trailing_shorter(s.drop_last(), c);
    }
}

/// Where a downloaded file goes: `Downloads/<name>` in the home directory
/// (`.` when `HOME` is not set).
pub open spec fn download_target(file_name: Seq<char>, home_var: Option<Seq<char>>) -> Seq<char> {
    path_joined(path_joined(home_or_current(home_var), "Downloads"@), file_name)
}

/// Where a downloaded file goes.
pub fn downloads_target_for(file_name: &str, home_var: &Option<String>) -> (r: String)
    ensures
        r@ == download_target(file_name@, opt_view(*home_var)),
{
    let home = match home_var {
        Some(h) => h.clone(),
        None => {
            proof {
                reveal_strlit(".");
                assert("."@ =~= seq!['.']);
            }
            String::from_str(".")
        },
    };
    let downloads = path_join(home.as_str(), "Downloads");
    path_join(downloads.as_str(), file_name)
}

/// The directory entries whose lowercase name starts with the lowercase
/// query, by position.
pub open spec fn is_prefix_match(e: RemoteEntry, query: Seq<char>) -> bool {
    e.kind == RemoteEntryKind::Directory && has_prefix(lowercase(e.name@), lowercase(query))
}

/// The positions, in order, of the directories in `entries` whose lowercase
/// name starts with the lowercase `query`.
pub open spec fn match_positions(entries: Seq<RemoteEntry>, query: Seq<char>) -> Seq<usize>
    decreases entries.len(),
{
    if entries.len() == 0 {
        seq![]
    } else {
        let rest = match_positions(entries.drop_last(), query);
        if is_prefix_match(entries.last(), query) {
            rest.push((entries.len() - 1) as usize)
        } else {
            rest
        }
    }
}

/// The positions of the directories whose lowercase name starts with the
/// lowercase `query`, in order.
pub fn directory_prefix_matches(entries: &Vec<RemoteEntry>, query: &str) -> (r: Vec<usize>)
    ensures
        r@ == match_positions(entries@, query@),
{
    let query_lower = to_lowercase(query);
    let mut r: Vec<usize> = Vec::new();
    let mut i: usize = 0;
    assert(entries@.subrange(0, 0) =~= Seq::<RemoteEntry>::empty());
    while i < entries.len()
        invariant
            i <= entries@.len(),
            query_lower@ == lowercase(query@),
            r@ == match_positions(entries@.subrange(0, i as int), query@),
        decreases entries.len() - i,
    {
        let e = &entries[i];
        let matched = if e.kind == RemoteEntryKind::Directory {
            let name_lower = to_lowercase(e.name.as_str());
            starts_with(name_lower.as_str(), query_lower.as_str())
        } else {
            false
        };
        let ghost next = entries@.subrange(0, i + 1);
        assert(next.drop_last() =~= entries@.subrange(0, i as int));
        assert(next.last() == entries@[i as int]);
        if matched {
            r.push(i);
        }
        i = i + 1;
    }
    assert(entries@.subrange(0, i as int) =~= entries@);
    r
}

/// The positions that `match_positions` gives are in range, rising, and
/// exactly those of the matching directories.
pub proof fn lemma_match_positions(entries: Seq<RemoteEntry>, query: Seq<char>)
    requires
        entries.len() <= usize::MAX,
    ensures
        forall|i: int|
            0 <= i < match_positions(entries, query).len() ==> (#[trigger] match_positions(
                entries,
                query,
            )[i] as int) < entries.len(),
        forall|i: int, j: int|
            0 <= i < j < match_positions(entries, query).len() ==> match_positions(
                entries,
                query,
            )[i] < match_positions(entries, query)[j],
        forall|k: int|
            0 <= k < entries.len() ==> (is_prefix_match(#[trigger] entries[k], query)
                <==> match_positions(entries, query).contains(k as usize)),
    decreases entries.len(),
{
    if entries.len() > 0 {
        let d = entries.drop_last();
        lemma_match_positions(d, query);
        let rest = match_positions(d, query);
        let all = match_positions(entries, query);
        let last = (entries.len() - 1) as usize;
        assert(last as int == entries.len() - 1);
        assert forall|i: int| 0 <= i < all.len() implies (#[trigger] all[i] as int)
            < entries.len() by {
            if i < rest.len() {
                assert(all[i] == rest[i]);
            }
        };
        assert forall|i: int, j: int| 0 <= i < j < all.len() implies all[i] < all[j] by {
            assert(all[i] == rest[i]);
            if j < rest.len() {
                assert(all[j] == rest[j]);
            } else {
                assert(all[j] == last);
                assert((rest[i] as int) < d.len());
            }
        };
        assert forall|k: int| 0 <= k < entries.len() implies (is_prefix_match(
            #[trigger] entries[k],
            query,
        ) <==> all.contains(k as usize)) by {
            let ku = k as usize;
            assert(ku as int == k);
            if k < entries.len() - 1 {
                assert(entries[k] == d[k]);
                if rest.contains(ku) {
                    let a = choose|a: int| 0 <= a < rest.len() && rest[a] == ku;
                    assert(all[a] == ku);
                }
                if all.contains(ku) {
                    let a = choose|a: int| 0 <= a < all.len() && all[a] == ku;
                    if a < rest.len() {
                        assert(rest[a] == all[a]);
                    } else {
                        assert(all[a] == last);
                    }
                }
            } else {
                assert(ku == last);
                if is_prefix_match(entries.last(), query) {
                    assert(all[rest.len() as int] == ku);
                } else {
                    if all.contains(ku) {
                        let a = choose|a: int| 0 <= a < all.len() && all[a] == ku;
                        assert(rest[a] == ku);
                        assert((rest[a] as int) < d.len());
                    }
                }
            }
        };
    }
}

/// How a line of the terminal frontend is coloured.
#[derive(Debug, Clone, Copy, PartialEq, Eq, Structural)]
pub enum Tone {
    Error,
    Success,
    Warning,
    Muted,
    Accent,
    Directory,
    Link,
    Plain,
}

/// `part` stands in `s` at position `i`.
pub open spec fn infix_at(s: Seq<char>, part: Seq<char>, i: int) -> bool {
    0 <= i <= s.len() - part.len() && s.subrange(i, i + part.len()) == part
}

/// `s` contains `part`.
pub open spec fn has_infix(s: Seq<char>, part: Seq<char>) -> bool {
    exists|i: int| #[trigger] infix_at(s, part, i)
}

/// Whether `s` contains `part`, as `str::contains` tells.
pub fn contains_text(s: &str, part: &str) -> (r: bool)
    ensures
        r == has_infix(s@, part@),
{
    let sv = chars_of(s);
    let pv = chars_of(part);
    if pv.len() > sv.len() {
        return false;
    }
    let mut i: usize = 0;
    while i <= sv.len() - pv.len()
        invariant
            sv@ == s@,
            pv@ == part@,
            pv.len() <= sv.len(),
            i <= sv.len() - pv.len() + 1,
            forall|a: int| 0 <= a < i ==> !#[trigger] infix_at(s@, part@, a),
        decreases sv.len() - pv.len() + 1 - i,
    {
        let mut j: usize = 0;
        while j < pv.len() && sv[i + j] == pv[j]
            invariant
                sv@ == s@,
                pv@ == part@,
                pv.len() <= sv.len(),
                i <= sv.len() - pv.len(),
                j <= pv.len(),
                forall|b: int| 0 <= b < j ==> sv@[i + b] == pv@[b],
            decreases pv.len() - j,
        {
            j = j + 1;
        }
        if j == pv.len() {
            assert(s@.subrange(i as int, i + part@.len()) =~= part@);
            assert(infix_at(s@, part@, i as int));
            return true;
        }
        assert(s@.subrange(i as int, i + part@.len())[j as int] != part@[j as int]);
        assert(!infix_at(s@, part@, i as int));
        i = i + 1;
    }
    false
}

/// The colour of a status line: errors (failed, error, mismatch), successes
/// (connected, downloaded, created, updated), warnings (search, canceled,
/// cancelled), and muted otherwise; the status is read in lowercase.
pub open spec fn status_tone_of(lower: Seq<char>) -> Tone {
    if has_infix(lower, "failed"@) || has_infix(lower, "error"@) || has_infix(lower, "mismatch"@) {
        Tone::Error
    } else if has_infix(lower, "connected"@) || has_infix(lower, "downloaded"@) || has_infix(
        lower,
        "created"@,
    ) || has_infix(lower, "updated"@) {
        Tone::Success
    } else if has_infix(lower, "search"@) || has_infix(lower, "canceled"@) || has_infix(
        lower,
        "cancelled"@,
    ) {
        Tone::Warning
    } else {
        Tone::Muted
    }
}

/// The colour of a status line.
pub fn status_tone(status: &str) -> (r: Tone)
    ensures
        r == status_tone_of(lowercase(status@)),
{
    let lower = to_lowercase(status);
    let l = lower.as_str();
    if contains_text(l, "failed") || contains_text(l, "error") || contains_text(l, "mismatch") {
        Tone::Error
    } else if contains_text(l, "connected") || contains_text(l, "downloaded") || contains_text(
        l,
        "created",
    ) || contains_text(l, "updated") {
        Tone::Success
    } else if contains_text(l, "search") || contains_text(l, "canceled") || contains_text(
        l,
        "cancelled",
    ) {
        Tone::Warning
    } else {
        Tone::Muted
    }
}

/// The colour a protocol is shown in.
pub fn protocol_tone(protocol: ProtocolKind) -> (r: Tone)
    ensures
        r == match protocol {
            ProtocolKind::Ftp => Tone::Warning,
            ProtocolKind::Ftps => Tone::Success,
            ProtocolKind::Sftp => Tone::Accent,
        },
{
    match protocol {
        ProtocolKind::Ftp => Tone::Warning,
        ProtocolKind::Ftps => Tone::Success,
        ProtocolKind::Sftp => Tone::Accent,
    }
}

} // verus!
