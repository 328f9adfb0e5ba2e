//! Ordering of records by a `(priority, text)` key, as `sort_by_key` on such a
//! pair orders them.
use vstd::prelude::*;

use crate::text::{lemma_seq_lt_asymmetric, lemma_seq_lt_irreflexive, lemma_seq_lt_total, lemma_seq_lt_transitive, seq_lt, text_lt};

verus! {

/// The texts of a sequence of character vectors.
pub open spec fn texts_of(v: Seq<Vec<char>>) -> Seq<Seq<char>> {
    v.map_values(|x: Vec<char>| x@)
}

/// Strict order on keys: by priority, then lexicographically by text.
pub open spec fn key_lt(p1: int, n1: Seq<char>, p2: int, n2: Seq<char>) -> bool {
    p1 < p2 || (p1 == p2 && seq_lt(n1, n2))
}

/// The priority-then-name order is transitive.
pub proof fn lemma_key_lt_transitive(p1: int, n1: Seq<char>, p2: int, n2: Seq<char>, p3: int, n3: Seq<char>)
    requires
        key_lt(p1, n1, p2, n2),
        key_lt(p2, n2, p3, n3),
    ensures
        key_lt(p1, n1, p3, n3),
{
    if p1 == p2 && p2 == p3 {
        lemma_seq_lt_transitive(n1, n2, n3);
    }
}

/// The priority-then-name order is asymmetric and irreflexive.
pub proof fn lemma_key_lt_asymmetric(p1: int, n1: Seq<char>, p2: int, n2: Seq<char>)
    ensures
        key_lt(p1, n1, p2, n2) ==> !key_lt(p2, n2, p1, n1),
        !key_lt(p1, n1, p1, n1),
{
    lemma_seq_lt_asymmetric(n1, n2);
    lemma_seq_lt_irreflexive(n1);
}

/// `order` lists every index below `n` exactly once.
pub open spec fn is_permutation(order: Seq<usize>, n: nat) -> bool {
    &&& order.len() == n
    &&& forall|k: int| 0 <= k < order.len() ==> (#[trigger] order[k]) < n
    &&& forall|a: int, b: int| 0 <= a < b < order.len() ==> order[a] != order[b]
}

/// Along `order`, no key is smaller than one before it.
pub open spec fn is_ordered_by(order: Seq<usize>, prio: Seq<i64>, names: Seq<Seq<char>>) -> bool {
    forall|a: int, b: int|
        0 <= a < b < order.len() ==> !key_lt(
            prio[order[b] as int] as int,
            names[order[b] as int],
            prio[order[a] as int] as int,
            names[order[a] as int],
        )
}

/// An order of `0..n` that sorts the records by their keys; records with equal
/// keys keep their relative order.
pub fn sort_indices(prio: &Vec<i64>, names: &Vec<Vec<char>>) -> (r: Vec<usize>)
    requires
        prio.len() == names.len(),
    ensures
        is_permutation(r@, prio.len() as nat),
        is_ordered_by(r@, prio@, texts_of(names@)),
{
    let n = prio.len();
    let ghost nm = texts_of(names@);
    let mut r: Vec<usize> = Vec::new();
    let mut i: usize = 0;
    while i < n
        invariant
            n == prio.len() == names.len(),
            nm == texts_of(names@),
            i <= n,
            r@.len() == i,
            forall|k: int| 0 <= k < r@.len() ==> (#[trigger] r@[k]) < i,
            forall|a: int, b: int| 0 <= a < b < r@.len() ==> r@[a] != r@[b],
            is_ordered_by(r@, prio@, nm),
        decreases n - i,
    {
        let mut p: usize = 0;
        while p < r.len() && !text_key_lt(prio, names, i, r[p])
            invariant
                n == prio.len() == names.len(),
                nm == texts_of(names@),
                i < n,
                p <= r@.len(),
                forall|k: int| 0 <= k < r@.len() ==> (#[trigger] r@[k]) < i,
                forall|a: int| 0 <= a < p ==> !key_lt(
                    prio@[i as int] as int,
                    nm[i as int],
                    prio@[r@[a] as int] as int,
                    nm[r@[a] as int],
                ),
            decreases r@.len() - p,
        {
            p = p + 1;
        }
        let ghost old_r = r@;
        r.insert(p, i);
        proof {
            assert(r@ == old_r.insert(p as int, i));
            assert forall|k: int| 0 <= k < r@.len() implies (#[trigger] r@[k]) < i + 1 by {
                if k < p {
                    assert(r@[k] == old_r[k]);
                } else if k > p {
                    assert(r@[k] == old_r[k - 1]);
                }
            }
            assert forall|a: int, b: int| 0 <= a < b < r@.len() implies r@[a] != r@[b] by {
                if a < p && b < p {
                    assert(r@[a] == old_r[a] && r@[b] == old_r[b]);
                } else if a < p && b == p {
                    assert(r@[a] == old_r[a]);
                } else if a < p && b > p {
                    assert(r@[a] == old_r[a] && r@[b] == old_r[b - 1]);
                } else if a == p {
                    assert(r@[b] == old_r[b - 1]);
                } else {
                    assert(r@[a] == old_r[a - 1] && r@[b] == old_r[b - 1]);
                }
            }
            let ki = prio@[i as int] as int;
            let ni = nm[i as int];
            assert forall|a: int, b: int| 0 <= a < b < r@.len() implies !key_lt(
                prio@[r@[b] as int] as int,
                nm[r@[b] as int],
                prio@[r@[a] as int] as int,
                nm[r@[a] as int],
            ) by {
                if a < p && b < p {
                    assert(r@[a] == old_r[a] && r@[b] == old_r[b]);
                } else if a < p && b == p {
                    assert(r@[a] == old_r[a]);
                } else if a < p && b > p {
                    assert(r@[a] == old_r[a] && r@[b] == old_r[b - 1]);
                } else if a == p {
                    let ob = old_r[b - 1];
                    assert(r@[b] == ob);
                    // p < old length: the scan stopped at a larger key
                    assert(key_lt(ki, ni, prio@[old_r[p as int] as int] as int, nm[old_r[p as int] as int]));
                    if key_lt(prio@[ob as int] as int, nm[ob as int], ki, ni) {
                        lemma_key_lt_transitive(
                            prio@[ob as int] as int, nm[ob as int], ki, ni,
                            prio@[old_r[p as int] as int] as int, nm[old_r[p as int] as int],
                        );
                        if b - 1 > p {
                        } else {
                            lemma_key_lt_asymmetric(prio@[ob as int] as int, nm[ob as int], prio@[ob as int] as int, nm[ob as int]);
                        }
                    }
                } else {
                    assert(r@[a] == old_r[a - 1] && r@[b] == old_r[b - 1]);
                }
            }
        }
        i = i + 1;
    }
    r
}

/// Whether the record `x` sorts strictly before the record `y`.
fn text_key_lt(prio: &Vec<i64>, names: &Vec<Vec<char>>, x: usize, y: usize) -> (r: bool)
    requires
        prio.len() == names.len(),
        x < prio.len(),
        y < prio.len(),
    ensures
        r == key_lt(
            prio@[x as int] as int,
            texts_of(names@)[x as int],
            prio@[y as int] as int,
            texts_of(names@)[y as int],
        ),
{
    prio[x] < prio[y] || (prio[x] == prio[y] && text_lt(&names[x], &names[y]))
}

} // verus!
