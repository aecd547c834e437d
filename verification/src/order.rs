//! The order in which the navigator lists directory entries: directories,
//! then symbolic links, then files, each group by lowercase name.

use vstd::prelude::*;
use crate::text::{chars_of, lowercase, to_lowercase};
use crate::types::{RemoteEntry, RemoteEntryKind};

verus! {

/// `a` comes before `b` in lexicographic order of character codes, the order
/// in which `str` values compare.
pub open spec fn seq_less(a: Seq<char>, b: Seq<char>) -> bool
    decreases a.len(),
{
    if a.len() == 0 {
        b.len() > 0
    } else if b.len() == 0 {
        false
    } else if a[0] < b[0] {
        true
    } else if a[0] == b[0] {
        seq_less(a.drop_first(), b.drop_first())
    } else {
        false
    }
}

/// No text comes before itself.
pub proof fn lemma_seq_less_irreflexive(a: Seq<char>)
    ensures
        !seq_less(a, a),
    decreases a.len(),
{
    if a.len() > 0 {
        lemma_seq_less_irreflexive(a.drop_first());
    }
}

/// Of two different texts, one comes before the other.
pub proof fn lemma_seq_less_total(a: Seq<char>, b: Seq<char>)
    ensures
        seq_less(a, b) || seq_less(b, a) || a == b,
        !(seq_less(a, b) && seq_less(b, a)),
    decreases a.len(),
{
    if a.len() > 0 && b.len() > 0 {
        if a[0] == b[0] {
            lemma_seq_less_total(a.drop_first(), b.drop_first());
            if a.drop_first() == b.drop_first() {
                assert forall|i: int| 0 <= i < a.len() implies a[i] == b[i] by {
                    if i > 0 {
                        assert(a[i] == a.drop_first()[i - 1]);
                        assert(b[i] == b.drop_first()[i - 1]);
                    }
                };
                assert(a =~= b);
            }
        }
    } else if a.len() == 0 && b.len() == 0 {
        assert(a =~= b);
    }
}

/// A text before a second that comes before a third comes before the third.
pub proof fn lemma_seq_less_transitive(a: Seq<char>, b: Seq<char>, c: Seq<char>)
    requires
        seq_less(a, b),
        seq_less(b, c),
    ensures
        seq_less(a, c),
    decreases a.len(),
{
    if a.len() > 0 && b.len() > 0 && c.len() > 0 {
        if a[0] == b[0] && b[0] == c[0] {
            lemma_seq_less_transitive(a.drop_first(), b.drop_first(), c.drop_first());
        }
    }
}

/// The rank of an entry kind in the listing order.
pub open spec fn kind_rank(kind: RemoteEntryKind) -> int {
    match kind {
        RemoteEntryKind::Directory => 0,
        RemoteEntryKind::Symlink => 1,
        RemoteEntryKind::File => 2,
    }
}

/// `a` is listed before `b`: a lower kind rank, or the same rank and a
/// lowercase name that comes first.
pub open spec fn listed_before(a: RemoteEntry, b: RemoteEntry) -> bool {
    ||| kind_rank(a.kind) < kind_rank(b.kind)
    ||| kind_rank(a.kind) == kind_rank(b.kind) && seq_less(lowercase(a.name@), lowercase(b.name@))
}

/// `a` and `b` rank alike: neither is listed before the other.
pub open spec fn ranks_alike(a: RemoteEntry, b: RemoteEntry) -> bool {
    !listed_before(a, b) && !listed_before(b, a)
}

/// The listing order is a strict order: irreflexive and transitive, and
/// any two entries either rank alike or one is listed before the other.
pub proof fn lemma_listed_before_order(a: RemoteEntry, b: RemoteEntry, c: RemoteEntry)
    ensures
        !listed_before(a, a),
        !(listed_before(a, b) && listed_before(b, a)),
        listed_before(a, b) && listed_before(b, c) ==> listed_before(a, c),
        listed_before(a, b) && !listed_before(c, b) ==> listed_before(a, c),
        !listed_before(b, a) && !listed_before(c, b) ==> !listed_before(c, a),
{
    lemma_seq_less_irreflexive(lowercase(a.name@));
    lemma_seq_less_total(lowercase(a.name@), lowercase(b.name@));
    lemma_seq_less_total(lowercase(b.name@), lowercase(c.name@));
    lemma_seq_less_total(lowercase(a.name@), lowercase(c.name@));
    if seq_less(lowercase(a.name@), lowercase(b.name@)) && seq_less(
        lowercase(b.name@),
        lowercase(c.name@),
    ) {
        lemma_seq_less_transitive(lowercase(a.name@), lowercase(b.name@), lowercase(c.name@));
    }
    if seq_less(lowercase(c.name@), lowercase(b.name@)) && seq_less(
        lowercase(b.name@),
        lowercase(a.name@),
    ) {
        lemma_seq_less_transitive(lowercase(c.name@), lowercase(b.name@), lowercase(a.name@));
    }
}

/// Whether `a` comes before `b` in lexicographic order of character codes.
pub fn text_less(a: &str, b: &str) -> (r: bool)
    ensures
        r == seq_less(a@, b@),
{
    let av = chars_of(a);
    let bv = chars_of(b);
    let mut i: usize = 0;
    assert(a@.subrange(0, a@.len() as int) =~= a@);
    assert(b@.subrange(0, b@.len() as int) =~= b@);
    while i < av.len() && i < bv.len() && av[i] == bv[i]
        invariant
            av@ == a@,
            bv@ == b@,
            i <= av.len(),
            i <= bv.len(),
            forall|k: int| 0 <= k < i ==> av@[k] == bv@[k],
            seq_less(a@, b@) == seq_less(
                a@.subrange(i as int, a@.len() as int),
                b@.subrange(i as int, b@.len() as int),
            ),
        decreases av.len() - i,
    {
        let ghost sa = a@.subrange(i as int, a@.len() as int);
        let ghost sb = b@.subrange(i as int, b@.len() as int);
        assert(sa.drop_first() =~= a@.subrange(i + 1, a@.len() as int));
        assert(sb.drop_first() =~= b@.subrange(i + 1, b@.len() as int));
        i = i + 1;
    }
    if i == av.len() {
        i < bv.len()
    } else if i == bv.len() {
        false
    } else {
        av[i] < bv[i]
    }
}

fn kind_rank_of(kind: RemoteEntryKind) -> (r: u8)
    ensures
        r as int == kind_rank(kind),
{
    match kind {
        RemoteEntryKind::Directory => 0,
        RemoteEntryKind::Symlink => 1,
        RemoteEntryKind::File => 2,
    }
}

/// Whether `a` is listed before `b`.
pub fn entry_listed_before(a: &RemoteEntry, b: &RemoteEntry) -> (r: bool)
    ensures
        r == listed_before(*a, *b),
{
    let ra = kind_rank_of(a.kind);
    let rb = kind_rank_of(b.kind);
    if ra < rb {
        return true;
    }
    if ra > rb {
        return false;
    }
    let la = to_lowercase(a.name.as_str());
    let lb = to_lowercase(b.name.as_str());
    text_less(la.as_str(), lb.as_str())
}

/// `out` is `input` sorted by the listing order, stably: `perm` says which
/// input entry stands at each position, every input entry stands once, no
/// entry is listed before one ahead of it, and entries that rank alike keep
/// their input order.
pub open spec fn stably_sorted(input: Seq<RemoteEntry>, out: Seq<RemoteEntry>, perm: Seq<int>) -> bool {
    &&& out.len() == input.len()
    &&& perm.len() == input.len()
    &&& forall|i: int| 0 <= i < perm.len() ==> 0 <= #[trigger] perm[i] < input.len()
    &&& forall|i: int, j: int| 0 <= i < j < perm.len() ==> perm[i] != perm[j]
    &&& forall|i: int| 0 <= i < out.len() ==> #[trigger] out[i] == input[perm[i]]
    &&& forall|i: int, j: int|
        0 <= i < j < out.len() ==> !listed_before(#[trigger] out[j], #[trigger] out[i])
    &&& forall|i: int, j: int|
        0 <= i < j < out.len() && ranks_alike(#[trigger] out[i], #[trigger] out[j]) ==> perm[i]
            < perm[j]
}

/// Sorts entries for the navigator: directories first, then symbolic links,
/// then files, each group by lowercase name, keeping the order of entries
/// that rank alike.
pub fn sort_entries(entries: &mut Vec<RemoteEntry>)
    ensures
        exists|perm: Seq<int>| stably_sorted(old(entries)@, final(entries)@, perm),
{
    let ghost input = entries@;
    let mut pending: Vec<RemoteEntry> = Vec::new();
    std::mem::swap(&mut pending, entries);
    // `pending` holds the input; take it from the front by reversing.
    let mut rest: Vec<RemoteEntry> = Vec::new();
    while pending.len() > 0
        invariant
            rest@ + pending@.reverse() =~= input.reverse(),
        decreases pending.len(),
    {
        let ghost before = pending@;
        let last = pending.pop().unwrap();
        assert(before == pending@.push(last));
        assert(before.reverse() =~= seq![last] + pending@.reverse());
        rest.push(last);
    }
    assert(rest@ =~= input.reverse());
    let mut out: Vec<RemoteEntry> = Vec::new();
    let ghost mut perm: Seq<int> = seq![];
    let mut k: usize = 0;
    let n = rest.len();
    while rest.len() > 0
        invariant
            n == input.len(),
            k + rest@.len() == n,
            rest@ =~= input.subrange(k as int, n as int).reverse(),
            stably_sorted(input.subrange(0, k as int), out@, perm),
        decreases rest.len(),
    {
        let x = rest.pop().unwrap();
        assert(x == input[k as int]);
        let ghost prev_out = out@;
        let ghost prev_perm = perm;
        let ghost prefix = input.subrange(0, k as int);
        let ghost next_prefix = input.subrange(0, k + 1);
        assert forall|i: int| 0 <= i < k implies next_prefix[i] == prefix[i] by {};
        // Find the first position whose entry `x` is listed before.
        let mut p: usize = 0;
        while p < out.len() && !entry_listed_before(&x, &out[p])
            invariant
                p <= out@.len(),
                out@ == prev_out,
                forall|a: int| 0 <= a < p ==> !listed_before(x, #[trigger] prev_out[a]),
            decreases out.len() - p,
        {
            p = p + 1;
        }
        proof {
            // Everything from `p` on is listed after `x`.
            assert forall|b: int| p <= b < prev_out.len() implies listed_before(
                x,
                #[trigger] prev_out[b],
            ) by {
                if b > p {
                    lemma_listed_before_order(x, prev_out[p as int], prev_out[b]);
                }
            };
        }
        out.insert(p, x);
        proof {
            let new_perm = prev_perm.insert(p as int, k as int);
            let o = out@;
            assert(o == prev_out.insert(p as int, x));
            assert forall|i: int| 0 <= i < o.len() implies #[trigger] o[i] == next_prefix[new_perm[i]] by {
                if i < p {
                    assert(o[i] == prev_out[i]);
                    assert(new_perm[i] == prev_perm[i]);
                } else if i == p {
                } else {
                    assert(o[i] == prev_out[i - 1]);
                    assert(new_perm[i] == prev_perm[i - 1]);
                }
            };
            assert forall|i: int, j: int| 0 <= i < j < new_perm.len() implies new_perm[i]
                != new_perm[j] by {
                if i < p && j < p {
                } else if i < p && j == p {
                    assert(0 <= prev_perm[i] < k);
                } else if i < p {
                    assert(new_perm[j] == prev_perm[j - 1]);
                } else if i == p {
                    assert(new_perm[j] == prev_perm[j - 1]);
                    assert(0 <= prev_perm[j - 1] < k);
                } else {
                    assert(new_perm[i] == prev_perm[i - 1]);
                    assert(new_perm[j] == prev_perm[j - 1]);
                }
            };
            assert forall|i: int| 0 <= i < new_perm.len() implies 0 <= #[trigger] new_perm[i]
                < next_prefix.len() by {
                if i < p {
                    assert(new_perm[i] == prev_perm[i]);
                } else if i > p {
                    assert(new_perm[i] == prev_perm[i - 1]);
                }
            };
            assert forall|i: int, j: int| 0 <= i < j < o.len() implies !listed_before(
                #[trigger] o[j],
                #[trigger] o[i],
            ) by {
                if i < p && j < p {
                } else if i < p && j == p {
                } else if i < p {
                    assert(o[j] == prev_out[j - 1]);
                    lemma_listed_before_order(prev_out[i], x, prev_out[j - 1]);
                } else if i == p {
                    assert(o[j] == prev_out[j - 1]);
                    lemma_listed_before_order(x, prev_out[j - 1], x);
                } else {
                    assert(o[i] == prev_out[i - 1]);
                    assert(o[j] == prev_out[j - 1]);
                }
            };
            assert forall|i: int, j: int|
                0 <= i < j < o.len() && ranks_alike(#[trigger] o[i], #[trigger] o[j]) implies new_perm[i]
                < new_perm[j] by {
                if i < p && j < p {
                } else if i < p && j == p {
                    assert(0 <= prev_perm[i] < k);
                } else if i < p {
                    assert(o[j] == prev_out[j - 1]);
                    assert(new_perm[j] == prev_perm[j - 1]);
                    assert(listed_before(x, prev_out[j - 1]));
                    lemma_listed_before_order(prev_out[i], x, prev_out[j - 1]);
                } else if i == p {
                    assert(o[j] == prev_out[j - 1]);
                    assert(listed_before(x, prev_out[j - 1]));
                } else {
                    assert(o[i] == prev_out[i - 1]);
                    assert(o[j] == prev_out[j - 1]);
                    assert(new_perm[i] == prev_perm[i - 1]);
                    assert(new_perm[j] == prev_perm[j - 1]);
                }
            };
            perm = new_perm;
            assert(stably_sorted(next_prefix, o, perm));
        }
        k = k + 1;
        assert(rest@ =~= input.subrange(k as int, n as int).reverse());
    }
    assert(input.subrange(0, k as int) =~= input);
    *entries = out;
}

} // verus!
