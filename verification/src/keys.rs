//! Key columns as sequences of texts: membership, position and
//! distinctness, and how they behave when rows are added or removed.

use vstd::prelude::*;

verus! {

/// Some row holds key `k`.
pub open spec fn holds_key(keys: Seq<Seq<char>>, k: Seq<char>) -> bool {
    exists|i: int| 0 <= i < keys.len() && #[trigger] keys[i] == k
}

/// The position of a row holding key `k`, or -1 when there is none.
pub open spec fn key_pos(keys: Seq<Seq<char>>, k: Seq<char>) -> int {
    if holds_key(keys, k) {
        choose|i: int| 0 <= i < keys.len() && #[trigger] keys[i] == k
    } else {
        -1
    }
}

/// No two rows hold the same key.
pub open spec fn distinct(keys: Seq<Seq<char>>) -> bool {
    forall|i: int, j: int| 0 <= i < j < keys.len() ==> #[trigger] keys[i] != #[trigger] keys[j]
}

pub proof fn lemma_key_pos_at(keys: Seq<Seq<char>>, i: int)
    requires
        distinct(keys),
        0 <= i < keys.len(),
    ensures
        holds_key(keys, keys[i]),
        key_pos(keys, keys[i]) == i,
{
    let k = keys[i];
    assert(keys[i] == k);
    let j = key_pos(keys, k);
    assert(keys[j] == k);
    if j < i {
        assert(keys[j] != keys[i]);
    } else if j > i {
        assert(keys[i] != keys[j]);
    }
}

pub proof fn lemma_key_pos_found(keys: Seq<Seq<char>>, k: Seq<char>)
    requires
        holds_key(keys, k),
    ensures
        0 <= key_pos(keys, k) < keys.len(),
        keys[key_pos(keys, k)] == k,
{
}

pub proof fn lemma_distinct_push(keys: Seq<Seq<char>>, k: Seq<char>)
    requires
        distinct(keys),
        !holds_key(keys, k),
    ensures
        distinct(keys.push(k)),
{
    let s = keys.push(k);
    assert forall|i: int, j: int| 0 <= i < j < s.len() implies #[trigger] s[i] != #[trigger] s[j] by {
        if j == keys.len() {
            assert(s[i] == keys[i]);
        } else {
            assert(keys[i] != keys[j]);
        }
    }
}

pub proof fn lemma_distinct_remove(keys: Seq<Seq<char>>, p: int)
    requires
        distinct(keys),
        0 <= p < keys.len(),
    ensures
        distinct(keys.remove(p)),
{
    let s = keys.remove(p);
    assert forall|i: int, j: int| 0 <= i < j < s.len() implies #[trigger] s[i] != #[trigger] s[j] by {
        let oi = if i < p { i } else { i + 1 };
        let oj = if j < p { j } else { j + 1 };
        assert(s[i] == keys[oi]);
        assert(s[j] == keys[oj]);
        assert(keys[oi] != keys[oj]);
    }
}

pub proof fn lemma_holds_key_push(keys: Seq<Seq<char>>, x: Seq<char>, k: Seq<char>)
    ensures
        holds_key(keys.push(x), k) == (holds_key(keys, k) || x == k),
{
    let s = keys.push(x);
    if holds_key(keys, k) {
        let i = choose|i: int| 0 <= i < keys.len() && #[trigger] keys[i] == k;
        assert(s[i] == k);
    }
    if x == k {
        assert(s[keys.len() as int] == k);
    }
    if holds_key(s, k) {
        let i = choose|i: int| 0 <= i < s.len() && #[trigger] s[i] == k;
        if i < keys.len() {
            assert(keys[i] == k);
        }
    }
}

pub proof fn lemma_holds_key_remove(keys: Seq<Seq<char>>, p: int, k: Seq<char>)
    requires
        0 <= p < keys.len(),
    ensures
        holds_key(keys.remove(p), k) == (exists|i: int| 0 <= i < keys.len() && i != p && #[trigger] keys[i] == k),
{
    let s = keys.remove(p);
    if exists|i: int| 0 <= i < keys.len() && i != p && #[trigger] keys[i] == k {
        let i = choose|i: int| 0 <= i < keys.len() && i != p && #[trigger] keys[i] == k;
        if i < p {
            assert(s[i] == k);
        } else {
            assert(s[i - 1] == k);
        }
    }
    if holds_key(s, k) {
        let i = choose|i: int| 0 <= i < s.len() && #[trigger] s[i] == k;
        if i < p {
            assert(keys[i] == k);
        } else {
            assert(keys[i + 1] == k);
        }
    }
}

pub proof fn lemma_holds_key_remove_other(keys: Seq<Seq<char>>, p: int, k: Seq<char>)
    requires
        0 <= p < keys.len(),
        holds_key(keys, k),
        keys[p] != k,
    ensures
        holds_key(keys.remove(p), k),
{
    lemma_holds_key_remove(keys, p, k);
    let i = choose|i: int| 0 <= i < keys.len() && #[trigger] keys[i] == k;
    assert(i != p);
}

/// Some other row than the one at `p` holds key `k`.
pub open spec fn held_by_other(keys: Seq<Seq<char>>, p: int, k: Seq<char>) -> bool {
    exists|j: int| 0 <= j < keys.len() && j != p && #[trigger] keys[j] == k
}

pub proof fn lemma_distinct_update(keys: Seq<Seq<char>>, p: int, k: Seq<char>)
    requires
        distinct(keys),
        0 <= p < keys.len(),
        !held_by_other(keys, p, k),
    ensures
        distinct(keys.update(p, k)),
{
    let s = keys.update(p, k);
    assert forall|i: int, j: int| 0 <= i < j < s.len() implies #[trigger] s[i] != #[trigger] s[j] by {
        if i == p {
            assert(keys[j] == s[j]);
        } else if j == p {
            assert(keys[i] == s[i]);
        } else {
            assert(keys[i] != keys[j]);
        }
    }
}

pub proof fn lemma_holds_key_update_same(keys: Seq<Seq<char>>, p: int, k: Seq<char>)
    requires
        0 <= p < keys.len(),
    ensures
        keys.update(p, keys[p]) == keys,
{
    assert(keys.update(p, keys[p]) =~= keys);
}

} // verus!
