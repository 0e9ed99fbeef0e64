//! Stable ordering of rows by a sort key. A sort returns the row positions
//! in the order in which the rows are listed; rows with equal keys keep the
//! order in which they are stored.

use vstd::prelude::*;
use crate::text::{
    lemma_text_le_antisymmetric, lemma_text_le_reflexive, lemma_text_le_total,
    lemma_text_le_transitive, text_le, text_le_exec,
};

verus! {

/// Position `v` occurs in `order`.
pub open spec fn occurs(order: Seq<usize>, v: int) -> bool {
    exists|i: int| 0 <= i < order.len() && #[trigger] order[i] == v
}

/// `order` lists each of the positions `0..n` exactly once.
pub open spec fn is_index_perm(order: Seq<usize>, n: int) -> bool {
    &&& order.len() == n
    &&& forall|i: int| 0 <= i < n ==> #[trigger] order[i] < n
    &&& forall|i: int, j: int| 0 <= i < j < n ==> #[trigger] order[i] != #[trigger] order[j]
    &&& forall|v: int| 0 <= v < n ==> #[trigger] occurs(order, v)
}

/// Inserting `k` at `pos` keeps every position that occurred and adds `k`.
proof fn lemma_insert_occurs(old_r: Seq<usize>, pos: int, k: usize)
    requires
        0 <= pos <= old_r.len(),
        forall|v: int| 0 <= v < k ==> #[trigger] occurs(old_r, v),
    ensures
        forall|v: int| 0 <= v < k + 1 ==> #[trigger] occurs(old_r.insert(pos, k), v),
{
    let s = old_r.insert(pos, k);
    assert forall|v: int| 0 <= v < k + 1 implies #[trigger] occurs(s, v) by {
        if v == k {
            assert(s[pos] == k);
        } else {
            assert(occurs(old_r, v));
            let i = choose|i: int| 0 <= i < old_r.len() && #[trigger] old_r[i] == v;
            if i < pos {
                assert(s[i] == v);
            } else {
                assert(s[i + 1] == v);
            }
        }
    }
}

/// `a` may be listed before `b`: ascending, or descending when `desc`.
pub open spec fn ordered_text(a: Seq<char>, b: Seq<char>, desc: bool) -> bool {
    if desc {
        text_le(b, a)
    } else {
        text_le(a, b)
    }
}

/// `order` lists the positions of `keys` sorted by key (descending when
/// `desc`), equal keys in ascending position.
pub open spec fn sorted_text_order(keys: Seq<Seq<char>>, order: Seq<usize>, desc: bool) -> bool {
    &&& is_index_perm(order, keys.len() as int)
    &&& forall|a: int, b: int|
        0 <= a < b < order.len() ==> ordered_text(
            #[trigger] keys[order[a] as int],
            #[trigger] keys[order[b] as int],
            desc,
        )
    &&& forall|a: int, b: int|
        0 <= a < b < order.len() && keys[order[a] as int] == keys[order[b] as int] ==> order[a]
            < order[b]
}

/// `order` lists the positions of `keys` in ascending key order, equal
/// keys in ascending position.
pub open spec fn sorted_int_order(keys: Seq<i64>, order: Seq<usize>) -> bool {
    &&& is_index_perm(order, keys.len() as int)
    &&& forall|a: int, b: int|
        0 <= a < b < order.len() ==> #[trigger] keys[order[a] as int] <= #[trigger] keys[order[b]
            as int]
    &&& forall|a: int, b: int|
        0 <= a < b < order.len() && keys[order[a] as int] == keys[order[b] as int] ==> order[a]
            < order[b]
}

/// The character sequences held by `v`.
pub open spec fn text_keys(v: Seq<Vec<char>>) -> Seq<Seq<char>> {
    Seq::new(v.len(), |i: int| v[i]@)
}

proof fn lemma_ordered_reflexive(a: Seq<char>, desc: bool)
    ensures
        ordered_text(a, a, desc),
{
    lemma_text_le_reflexive(a);
}

proof fn lemma_ordered_total(a: Seq<char>, b: Seq<char>, desc: bool)
    ensures
        ordered_text(a, b, desc) || ordered_text(b, a, desc),
{
    lemma_text_le_total(a, b);
}

proof fn lemma_ordered_transitive(a: Seq<char>, b: Seq<char>, c: Seq<char>, desc: bool)
    requires
        ordered_text(a, b, desc),
        ordered_text(b, c, desc),
    ensures
        ordered_text(a, c, desc),
{
    if desc {
        lemma_text_le_transitive(c, b, a);
    } else {
        lemma_text_le_transitive(a, b, c);
    }
}

fn ordered_exec(a: &Vec<char>, b: &Vec<char>, desc: bool) -> (r: bool)
    ensures
        r == ordered_text(a@, b@, desc),
{
    if desc {
        text_le_exec(b, a)
    } else {
        text_le_exec(a, b)
    }
}

/// The positions of `keys` in listing order: sorted by key, descending when
/// `desc`, rows with equal keys in stored order.
pub fn sort_by_text(keys: &Vec<Vec<char>>, desc: bool) -> (r: Vec<usize>)
    ensures
        sorted_text_order(text_keys(keys@), r@, desc),
{
    let ghost ks = text_keys(keys@);
    let n = keys.len();
    let mut r: Vec<usize> = Vec::new();
    for k in 0..n
        invariant
            n == keys@.len(),
            ks == text_keys(keys@),
            r.len() == k,
            forall|i: int| 0 <= i < k ==> #[trigger] r@[i] < k,
            forall|i: int, j: int| 0 <= i < j < k ==> #[trigger] r@[i] != #[trigger] r@[j],
            forall|v: int| 0 <= v < k ==> #[trigger] occurs(r@, v),
            forall|a: int, b: int|
                0 <= a < b < k ==> ordered_text(
                    #[trigger] ks[r@[a] as int],
                    #[trigger] ks[r@[b] as int],
                    desc,
                ),
            forall|a: int, b: int|
                0 <= a < b < k && ks[r@[a] as int] == ks[r@[b] as int] ==> r@[a] < r@[b],
    {
        let mut pos: usize = 0;
        while pos < r.len() && ordered_exec(&keys[r[pos]], &keys[k], desc)
            invariant
                n == keys@.len(),
                ks == text_keys(keys@),
                k < n,
                r.len() == k,
                pos <= r.len(),
                forall|i: int| 0 <= i < k ==> #[trigger] r@[i] < k,
                forall|q: int| 0 <= q < pos ==> ordered_text(#[trigger] ks[r@[q] as int], ks[k as int], desc),
            decreases r.len() - pos,
        {
            pos = pos + 1;
        }
        proof {
            // Every key from `pos` on sorts strictly after the new key.
            assert forall|q: int| pos <= q < k implies !ordered_text(
                #[trigger] ks[r@[q] as int],
                ks[k as int],
                desc,
            ) by {
                assert(!ordered_text(ks[r@[pos as int] as int], ks[k as int], desc));
                if q > pos && ordered_text(ks[r@[q] as int], ks[k as int], desc) {
                    lemma_ordered_transitive(
                        ks[r@[pos as int] as int],
                        ks[r@[q] as int],
                        ks[k as int],
                        desc,
                    );
                }
            }
        }
        let ghost old_r = r@;
        r.insert(pos, k);
        proof {
            let s = r@;
            assert(s =~= old_r.insert(pos as int, k));
            lemma_insert_occurs(old_r, pos as int, k);
            assert forall|a: int, b: int|
                0 <= a < b < k + 1 implies ordered_text(
                #[trigger] ks[s[a] as int],
                #[trigger] ks[s[b] as int],
                desc,
            ) by {
                if b == pos {
                } else if a == pos {
                    lemma_ordered_total(ks[k as int], ks[old_r[b - 1] as int], desc);
                } else if a < pos && b > pos {
                    assert(s[b] == old_r[b - 1]);
                } else if a > pos {
                    assert(s[a] == old_r[a - 1]);
                    assert(s[b] == old_r[b - 1]);
                }
            }
            assert forall|a: int, b: int|
                0 <= a < b < k + 1 && ks[s[a] as int] == ks[s[b] as int] implies s[a] < s[b] by {
                if a == pos {
                    lemma_ordered_reflexive(ks[k as int], desc);
                    assert(s[b] == old_r[b - 1]);
                } else if b == pos {
                } else if a < pos && b > pos {
                    assert(s[b] == old_r[b - 1]);
                } else if a > pos {
                    assert(s[a] == old_r[a - 1]);
                    assert(s[b] == old_r[b - 1]);
                }
            }
            assert forall|i: int, j: int| 0 <= i < j < k + 1 implies #[trigger] s[i] != #[trigger] s[j] by {
                if i == pos {
                    assert(s[j] == old_r[j - 1]);
                } else if j == pos {
                } else if i < pos && j > pos {
                    assert(s[j] == old_r[j - 1]);
                } else if i > pos {
                    assert(s[i] == old_r[i - 1]);
                    assert(s[j] == old_r[j - 1]);
                }
            }
        }
    }
    r
}

/// The positions of `keys` in ascending key order, rows with equal keys in
/// stored order.
pub fn sort_by_int(keys: &Vec<i64>) -> (r: Vec<usize>)
    ensures
        sorted_int_order(keys@, r@),
{
    let ghost ks = keys@;
    let n = keys.len();
    let mut r: Vec<usize> = Vec::new();
    for k in 0..n
        invariant
            n == keys@.len(),
            ks == keys@,
            r.len() == k,
            forall|i: int| 0 <= i < k ==> #[trigger] r@[i] < k,
            forall|i: int, j: int| 0 <= i < j < k ==> #[trigger] r@[i] != #[trigger] r@[j],
            forall|v: int| 0 <= v < k ==> #[trigger] occurs(r@, v),
            forall|a: int, b: int|
                0 <= a < b < k ==> #[trigger] ks[r@[a] as int] <= #[trigger] ks[r@[b] as int],
            forall|a: int, b: int|
                0 <= a < b < k && ks[r@[a] as int] == ks[r@[b] as int] ==> r@[a] < r@[b],
    {
        let mut pos: usize = 0;
        while pos < r.len() && keys[r[pos]] <= keys[k]
            invariant
                n == keys@.len(),
                ks == keys@,
                k < n,
                r.len() == k,
                pos <= r.len(),
                forall|i: int| 0 <= i < k ==> #[trigger] r@[i] < k,
                forall|a: int, b: int|
                    0 <= a < b < k ==> #[trigger] ks[r@[a] as int] <= #[trigger] ks[r@[b] as int],
                forall|q: int| 0 <= q < pos ==> #[trigger] ks[r@[q] as int] <= ks[k as int],
            decreases r.len() - pos,
        {
            pos = pos + 1;
        }
        proof {
            assert forall|q: int| pos <= q < k implies #[trigger] ks[r@[q] as int] > ks[k as int] by {
                assert(ks[r@[pos as int] as int] > ks[k as int]);
                if q > pos {
                    assert(ks[r@[pos as int] as int] <= ks[r@[q] as int]);
                }
            }
        }
        let ghost old_r = r@;
        r.insert(pos, k);
        proof {
            let s = r@;
            assert(s =~= old_r.insert(pos as int, k));
            lemma_insert_occurs(old_r, pos as int, k);
            assert forall|a: int, b: int|
                0 <= a < b < k + 1 implies #[trigger] ks[s[a] as int] <= #[trigger] ks[s[b] as int] by {
                if b == pos {
                } else if a == pos {
                    assert(s[b] == old_r[b - 1]);
                } else if a < pos && b > pos {
                    assert(s[b] == old_r[b - 1]);
                } else if a > pos {
                    assert(s[a] == old_r[a - 1]);
                    assert(s[b] == old_r[b - 1]);
                }
            }
            assert forall|a: int, b: int|
                0 <= a < b < k + 1 && ks[s[a] as int] == ks[s[b] as int] implies s[a] < s[b] by {
                if a == pos {
                    assert(s[b] == old_r[b - 1]);
                } else if b == pos {
                } else if a < pos && b > pos {
                    assert(s[b] == old_r[b - 1]);
                } else if a > pos {
                    assert(s[a] == old_r[a - 1]);
                    assert(s[b] == old_r[b - 1]);
                }
            }
            assert forall|i: int, j: int| 0 <= i < j < k + 1 implies #[trigger] s[i] != #[trigger] s[j] by {
                if i == pos {
                    assert(s[j] == old_r[j - 1]);
                } else if j == pos {
                } else if i < pos && j > pos {
                    assert(s[j] == old_r[j - 1]);
                } else if i > pos {
                    assert(s[i] == old_r[i - 1]);
                    assert(s[j] == old_r[j - 1]);
                }
            }
        }
    }
    r
}

/// Two sorted orders of the same keys agree on every position below `i`
/// and, by the same argument, at `i`.
proof fn lemma_text_orders_agree(keys: Seq<Seq<char>>, o1: Seq<usize>, o2: Seq<usize>, desc: bool, i: int)
    requires
        sorted_text_order(keys, o1, desc),
        sorted_text_order(keys, o2, desc),
        0 <= i < o1.len(),
    ensures
        forall|j: int| 0 <= j <= i ==> #[trigger] o1[j] == o2[j],
    decreases i,
{
    if i > 0 {
        lemma_text_orders_agree(keys, o1, o2, desc, i - 1);
    }
    let a = o1[i];
    let b = o2[i];
    if a != b {
        assert(occurs(o2, a as int));
        let j = choose|j: int| 0 <= j < o2.len() && #[trigger] o2[j] == a as int;
        assert(occurs(o1, b as int));
        let k = choose|k: int| 0 <= k < o1.len() && #[trigger] o1[k] == b as int;
        if j < i {
            assert(o1[j] == o2[j]);
            assert(o1[j] != o1[i]);
        }
        if k < i {
            assert(o1[k] == o2[k]);
            assert(o2[k] != o2[i]);
        }
        assert(j > i && k > i);
        assert(ordered_text(keys[b as int], keys[a as int], desc));
        assert(ordered_text(keys[a as int], keys[b as int], desc));
        lemma_text_le_antisymmetric(keys[a as int], keys[b as int]);
        assert(o2[i] < o2[j]);
        assert(o1[i] < o1[k]);
    }
}

/// The sorted order of a sequence of text keys is unique.
pub proof fn law_sorted_text_order_unique(keys: Seq<Seq<char>>, o1: Seq<usize>, o2: Seq<usize>, desc: bool)
    requires
        sorted_text_order(keys, o1, desc),
        sorted_text_order(keys, o2, desc),
    ensures
        o1 == o2,
{
    if o1.len() > 0 {
        lemma_text_orders_agree(keys, o1, o2, desc, o1.len() - 1);
    }
    assert(o1 =~= o2);
}

proof fn lemma_int_orders_agree(keys: Seq<i64>, o1: Seq<usize>, o2: Seq<usize>, i: int)
    requires
        sorted_int_order(keys, o1),
        sorted_int_order(keys, o2),
        0 <= i < o1.len(),
    ensures
        forall|j: int| 0 <= j <= i ==> #[trigger] o1[j] == o2[j],
    decreases i,
{
    if i > 0 {
        lemma_int_orders_agree(keys, o1, o2, i - 1);
    }
    let a = o1[i];
    let b = o2[i];
    if a != b {
        assert(occurs(o2, a as int));
        let j = choose|j: int| 0 <= j < o2.len() && #[trigger] o2[j] == a as int;
        assert(occurs(o1, b as int));
        let k = choose|k: int| 0 <= k < o1.len() && #[trigger] o1[k] == b as int;
        if j < i {
            assert(o1[j] == o2[j]);
            assert(o1[j] != o1[i]);
        }
        if k < i {
            assert(o1[k] == o2[k]);
            assert(o2[k] != o2[i]);
        }
        assert(j > i && k > i);
        assert(keys[b as int] <= keys[a as int]);
        assert(keys[a as int] <= keys[b as int]);
        assert(o2[i] < o2[j]);
        assert(o1[i] < o1[k]);
    }
}

/// The sorted order of a sequence of number keys is unique.
pub proof fn law_sorted_int_order_unique(keys: Seq<i64>, o1: Seq<usize>, o2: Seq<usize>)
    requires
        sorted_int_order(keys, o1),
        sorted_int_order(keys, o2),
    ensures
        o1 == o2,
{
    if o1.len() > 0 {
        lemma_int_orders_agree(keys, o1, o2, o1.len() - 1);
    }
    assert(o1 =~= o2);
}

} // verus!
