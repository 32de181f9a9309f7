use vstd::prelude::*;
use crate::stamp::{not_after, Stamp};

verus! {

/// Order of optional stamps, an absent stamp lowest: `a` does not come after `b`.
pub open spec fn key_le(a: Option<Stamp>, b: Option<Stamp>) -> bool {
    match (a, b) {
        (None, _) => true,
        (Some(_), None) => false,
        (Some(x), Some(y)) => not_after(x, y),
    }
}

/// `r` lists positions of `keys` picked by `mask`, each once, latest key
/// first, at most `limit` of them, and no position left out ranks above one
/// that was taken; fewer than `limit` only when every picked position is in.
pub open spec fn ranked(keys: Seq<Option<Stamp>>, mask: Seq<bool>, limit: int, r: Seq<usize>) -> bool {
    &&& r.len() <= limit
    &&& forall|k: int| 0 <= k < r.len() ==> (r[k] as int) < keys.len() && #[trigger] mask[r[k] as int]
    &&& forall|k1: int, k2: int| 0 <= k1 < k2 < r.len() ==> r[k1] != r[k2]
    &&& forall|k1: int, k2: int|
        0 <= k1 < k2 < r.len() ==> key_le(#[trigger] keys[r[k2] as int], #[trigger] keys[r[k1] as int])
    &&& forall|i: int, k: int|
        0 <= i < keys.len() && 0 <= k < r.len() && mask[i] && !r.contains(i as usize) ==> key_le(
            #[trigger] keys[i],
            #[trigger] keys[r[k] as int],
        )
    &&& (r.len() == limit || forall|i: int| 0 <= i < keys.len() && #[trigger] mask[i] ==> r.contains(i as usize))
}

/// Whether `a` comes strictly after `b` in the order of `key_le`.
fn ranks_above(a: &Option<Stamp>, b: &Option<Stamp>) -> (r: bool)
    ensures
        r == !key_le(*a, *b),
{
    match (a, b) {
        (None, _) => false,
        (Some(_), None) => true,
        (Some(x), Some(y)) => y.is_before(x),
    }
}

/// The positions picked by `mask`, latest key first, at most `limit` of them.
pub fn newest_first(keys: &Vec<Option<Stamp>>, mask: &Vec<bool>, limit: u64) -> (r: Vec<usize>)
    requires
        keys.len() == mask.len(),
    ensures
        ranked(keys@, mask@, limit as int, r@),
{
    let n = keys.len();
    let mut taken: Vec<bool> = Vec::new();
    let mut i: usize = 0;
    while i < n
        invariant
            i <= n,
            taken.len() == i,
            forall|j: int| 0 <= j < i ==> !taken[j],
        decreases n - i,
    {
        taken.push(false);
        i = i + 1;
    }
    let mut out: Vec<usize> = Vec::new();
    let mut exhausted = false;
    while (out.len() as u64) < limit && !exhausted
        invariant
            n == keys.len(),
            n == mask.len(),
            taken.len() == n,
            out.len() <= limit,
            out.len() <= n,
            forall|k: int| 0 <= k < out.len() ==> (out[k] as int) < n && mask[out[k] as int] && taken[out[k] as int],
            forall|j: int| 0 <= j < n && #[trigger] taken[j] ==> out@.contains(j as usize),
            forall|k1: int, k2: int| 0 <= k1 < k2 < out.len() ==> out[k1] != out[k2],
            forall|k1: int, k2: int|
                0 <= k1 < k2 < out.len() ==> key_le(#[trigger] keys@[out[k2] as int], #[trigger] keys@[out[k1] as int]),
            forall|j: int, k: int|
                0 <= j < n && 0 <= k < out.len() && mask[j] && !taken[j] ==> key_le(
                    #[trigger] keys@[j],
                    #[trigger] keys@[out[k] as int],
                ),
            exhausted ==> forall|j: int| 0 <= j < n && mask[j] ==> #[trigger] taken[j],
        decreases n - out.len() + (if exhausted { 0int } else { 1int }),
    {
        let mut best: Option<usize> = None;
        let mut j: usize = 0;
        while j < n
            invariant
                j <= n,
                n == keys.len(),
                n == mask.len(),
                taken.len() == n,
                match best {
                    Some(b) => (b as int) < n && mask[b as int] && !taken[b as int] && forall|x: int|
                        0 <= x < j && mask[x] && !taken[x] ==> key_le(#[trigger] keys@[x], keys@[b as int]),
                    None => forall|x: int| 0 <= x < j ==> !(#[trigger] mask[x] && !taken[x]),
                },
            decreases n - j,
        {
            if mask[j] && !taken[j] {
                match best {
                    Some(b) => {
                        if ranks_above(&keys[j], &keys[b]) {
                            best = Some(j);
                        }
                    },
                    None => {
                        best = Some(j);
                    },
                }
            }
            j = j + 1;
        }
        match best {
            Some(b) => {
                proof {
                    assert forall|j: int| 0 <= j < n && #[trigger] taken[j] implies !(j == b as int) by {}
                    assert forall|k: int| 0 <= k < out.len() implies out[k] != b by {}
                    assert(out.len() < n) by {
                        lemma_distinct_bound(out@, n as int, b);
                    }
                }
                let ghost prev = out@;
                let ghost prev_taken = taken@;
                taken.set(b, true);
                out.push(b);
                proof {
                    assert forall|x: int| 0 <= x < n && #[trigger] taken[x] implies out@.contains(x as usize) by {
                        if x != b as int {
                            assert(prev_taken[x]);
                            assert(prev.contains(x as usize));
                            let k = choose|k: int| 0 <= k < prev.len() && prev[k] == x as usize;
                            assert(out@[k] == x as usize);
                        } else {
                            assert(out@[out.len() - 1] == b);
                        }
                    }
                }
            },
            None => {
                exhausted = true;
            },
        }
    }
    proof {
        assert forall|x: int| 0 <= x < n && mask[x] && !out@.contains(x as usize) implies !taken[x] by {}
        assert forall|x: int| 0 <= x < n && #[trigger] mask[x] && exhausted implies out@.contains(x as usize) by {
            assert(taken[x]);
        }
    }
    out
}

/// Distinct positions below `n` that leave out `b < n` number fewer than `n`.
proof fn lemma_distinct_bound(s: Seq<usize>, n: int, b: usize)
    requires
        0 <= b < n,
        forall|k: int| 0 <= k < s.len() ==> (s[k] as int) < n && s[k] != b,
        forall|k1: int, k2: int| 0 <= k1 < k2 < s.len() ==> s[k1] != s[k2],
    ensures
        s.len() < n,
{
    let t = s.map_values(|x: usize| x as int);
    assert(t.no_duplicates()) by {
        assert forall|i: int, j: int| 0 <= i < t.len() && 0 <= j < t.len() && i != j implies t[i] != t[j] by {
            if i < j {
                assert(s[i] != s[j]);
            } else {
                assert(s[j] != s[i]);
            }
        }
    }
    t.unique_seq_to_set();
    let range = vstd::set_lib::set_int_range(0, n).remove(b as int);
    vstd::set_lib::lemma_int_range(0, n);
    assert(t.to_set().subset_of(range)) by {
        assert forall|x: int| t.to_set().contains(x) implies range.contains(x) by {
            let k = choose|k: int| 0 <= k < t.len() && t[k] == x;
            assert(s[k] != b);
        }
    }
    vstd::set_lib::lemma_len_subset(t.to_set(), range);
}

} // verus!
