//! The `LIKE` operator of SQL, as the event search applies it: `%` stands
//! for any run of characters (the empty one too), `_` for exactly one
//! character, and any other pattern character matches a text character that
//! is the same up to ASCII case.

use vstd::prelude::*;
use crate::text::{fold, fold_of};

verus! {

/// Whether text character `c` matches the literal pattern character `p`.
pub open spec fn same_folded(c: char, p: char) -> bool {
    fold(c) == fold(p)
}

/// Whether the text from position `i` on matches the pattern from
/// position `j` on.
pub open spec fn like_from(t: Seq<char>, p: Seq<char>, i: int, j: int) -> bool
    decreases (t.len() - i) as nat + (p.len() - j) as nat,
{
    if j < 0 || i < 0 || i > t.len() {
        false
    } else if j >= p.len() {
        i == t.len()
    } else if p[j] == '%' {
        like_from(t, p, i, j + 1) || (i < t.len() && like_from(t, p, i + 1, j))
    } else if p[j] == '_' {
        i < t.len() && like_from(t, p, i + 1, j + 1)
    } else {
        i < t.len() && same_folded(t[i], p[j]) && like_from(t, p, i + 1, j + 1)
    }
}

/// Whether the whole text `t` matches the whole pattern `p`.
pub open spec fn sql_like(t: Seq<char>, p: Seq<char>) -> bool {
    like_from(t, p, 0, 0)
}

/// Decides `sql_like(t, p)` column by column: after the step for pattern
/// position `j`, entry `k` of the column says whether the last `k`
/// characters of the text match the pattern from `j` on.
pub fn like_match(t: &Vec<char>, p: &Vec<char>) -> (r: bool)
    ensures
        r == sql_like(t@, p@),
{
    let n = t.len();
    let m = p.len();
    let mut col: Vec<bool> = Vec::new();
    col.push(true);
    for k in 0..n
        invariant
            n == t@.len(),
            m == p@.len(),
            col.len() == k + 1,
            forall|q: int| 0 <= q <= k ==> col@[q] == like_from(t@, p@, n - q, m as int),
    {
        col.push(false);
    }
    let mut j = m;
    while j > 0
        invariant
            n == t@.len(),
            m == p@.len(),
            j <= m,
            col.len() == n + 1,
            forall|q: int| 0 <= q <= n ==> col@[q] == like_from(t@, p@, n - q, j as int),
        decreases j,
    {
        j = j - 1;
        let pc = p[j];
        let mut cur: Vec<bool> = Vec::new();
        let first = pc == '%' && col[0];
        assert(first == like_from(t@, p@, n as int, j as int));
        cur.push(first);
        for k in 0..n
            invariant
                n == t@.len(),
                m == p@.len(),
                j < m,
                pc == p@[j as int],
                col.len() == n + 1,
                forall|q: int| 0 <= q <= n ==> col@[q] == like_from(t@, p@, n - q, j + 1),
                cur.len() == k + 1,
                forall|q: int| 0 <= q <= k ==> cur@[q] == like_from(t@, p@, n - q, j as int),
        {
            let kk = k + 1;
            let v = if pc == '%' {
                col[kk] || cur[k]
            } else if pc == '_' {
                col[k]
            } else {
                fold_of(t[n - kk]) == fold_of(pc) && col[k]
            };
            assert(v == like_from(t@, p@, n - kk, j as int));
            cur.push(v);
        }
        col = cur;
    }
    col[n]
}

/// Pattern character `c` is not a wildcard.
pub open spec fn is_literal(c: char) -> bool {
    c != '%' && c != '_'
}

/// A `%` at pattern position `j` may skip the text from `i` up to `k`.
proof fn lemma_percent_skips(t: Seq<char>, p: Seq<char>, i: int, j: int, k: int)
    requires
        0 <= j < p.len(),
        p[j] == '%',
        0 <= i <= k <= t.len(),
        like_from(t, p, k, j + 1),
    ensures
        like_from(t, p, i, j),
    decreases k - i,
{
    if i < k {
        lemma_percent_skips(t, p, i + 1, j, k);
    }
}

/// A final `%` matches whatever text is left.
proof fn lemma_final_percent(t: Seq<char>, p: Seq<char>, i: int)
    requires
        p.len() > 0,
        p[p.len() - 1] == '%',
        0 <= i <= t.len(),
    ensures
        like_from(t, p, i, p.len() - 1),
{
    assert(like_from(t, p, t.len() as int, p.len() as int));
    lemma_percent_skips(t, p, i, p.len() - 1, t.len() as int);
}

/// Literal pattern characters from `j` to `e` match text from `i` on when
/// each is the same up to ASCII case.
proof fn lemma_literals_match(t: Seq<char>, p: Seq<char>, i: int, j: int, e: int)
    requires
        0 <= j <= e <= p.len(),
        0 <= i,
        i + (e - j) <= t.len(),
        forall|m: int| j <= m < e ==> is_literal(#[trigger] p[m]) && same_folded(t[i + (m - j)], p[m]),
        like_from(t, p, i + (e - j), e),
    ensures
        like_from(t, p, i, j),
    decreases e - j,
{
    if j < e {
        lemma_literals_match(t, p, i + 1, j + 1, e);
        assert(same_folded(t[i + (j - j)], p[j]));
    }
}

/// A search for a text without wildcards finds every text that contains
/// it, up to ASCII case: `a + w + b` matches `'%' + needle + '%'` when `w`
/// and `needle` agree character by character up to ASCII case.
pub proof fn law_like_finds_substring(a: Seq<char>, w: Seq<char>, b: Seq<char>, needle: Seq<char>)
    requires
        w.len() == needle.len(),
        forall|m: int| 0 <= m < needle.len() ==> is_literal(#[trigger] needle[m]),
        forall|m: int| 0 <= m < needle.len() ==> same_folded(#[trigger] w[m], needle[m]),
    ensures
        sql_like(a + w + b, seq!['%'] + needle + seq!['%']),
{
    let t = a + w + b;
    let p = seq!['%'] + needle + seq!['%'];
    let n = needle.len() as int;
    lemma_final_percent(t, p, a.len() + n);
    assert forall|m: int| 1 <= m < 1 + n implies is_literal(p[m]) && same_folded(
        #[trigger] t[a.len() + (m - 1)],
        p[m],
    ) by {
        assert(p[m] == needle[m - 1]);
        assert(t[a.len() + (m - 1)] == w[m - 1]);
    }
    lemma_literals_match(t, p, a.len() as int, 1, 1 + n);
    lemma_percent_skips(t, p, 0, 0, a.len() as int);
}

/// `u` and `v` agree character by character up to ASCII case.
pub open spec fn same_text_folded(u: Seq<char>, v: Seq<char>) -> bool {
    &&& u.len() == v.len()
    &&& forall|m: int| 0 <= m < v.len() ==> same_folded(u[m], #[trigger] v[m])
}

/// Some run of `text` is `needle` up to ASCII case.
pub open spec fn contains_folded(text: Seq<char>, needle: Seq<char>) -> bool {
    exists|k: int|
        0 <= k && k + needle.len() <= text.len() && #[trigger] same_text_folded(
            text.subrange(k, k + needle.len()),
            needle,
        )
}

/// A `%` at pattern position `j` that matches the text from `i` on leaves
/// the rest of the pattern to match from some later text position.
proof fn lemma_percent_splits(t: Seq<char>, p: Seq<char>, i: int, j: int)
    requires
        0 <= j < p.len(),
        p[j] == '%',
        like_from(t, p, i, j),
    ensures
        exists|k: int| i <= k <= t.len() && #[trigger] like_from(t, p, k, j + 1),
    decreases t.len() - i,
{
    if !like_from(t, p, i, j + 1) {
        lemma_percent_splits(t, p, i + 1, j);
        let k = choose|k: int| i + 1 <= k <= t.len() && #[trigger] like_from(t, p, k, j + 1);
        assert(i <= k <= t.len() && like_from(t, p, k, j + 1));
    }
}

/// Literal pattern characters from `j` to `e` that match the text from `i`
/// on match it character by character up to ASCII case.
proof fn lemma_literals_matched(t: Seq<char>, p: Seq<char>, i: int, j: int, e: int)
    requires
        0 <= j <= e <= p.len(),
        forall|m: int| j <= m < e ==> is_literal(#[trigger] p[m]),
        like_from(t, p, i, j),
    ensures
        0 <= i,
        i + (e - j) <= t.len(),
        forall|m: int| j <= m < e ==> same_folded(t[i + (m - j)], #[trigger] p[m]),
        like_from(t, p, i + (e - j), e),
    decreases e - j,
{
    if j < e {
        assert(is_literal(p[j]));
        lemma_literals_matched(t, p, i + 1, j + 1, e);
        assert forall|m: int| j <= m < e implies same_folded(t[i + (m - j)], #[trigger] p[m]) by {
            if m > j {
                assert(t[(i + 1) + (m - (j + 1))] == t[i + (m - j)]);
            }
        }
    }
}

/// A search for a text without wildcards finds exactly the texts that
/// contain it up to ASCII case: `text` matches `'%' + needle + '%'` if and
/// only if some run of `text` equals `needle` up to ASCII case.
pub proof fn law_like_is_substring_search(text: Seq<char>, needle: Seq<char>)
    requires
        forall|m: int| 0 <= m < needle.len() ==> is_literal(#[trigger] needle[m]),
    ensures
        sql_like(text, seq!['%'] + needle + seq!['%']) <==> contains_folded(text, needle),
{
    let p = seq!['%'] + needle + seq!['%'];
    let n = needle.len() as int;
    if sql_like(text, p) {
        lemma_percent_splits(text, p, 0, 0);
        let k = choose|k: int| 0 <= k <= text.len() && #[trigger] like_from(text, p, k, 1);
        assert forall|m: int| 1 <= m < 1 + n implies is_literal(#[trigger] p[m]) by {
            assert(p[m] == needle[m - 1]);
        }
        lemma_literals_matched(text, p, k, 1, 1 + n);
        let u = text.subrange(k, k + n);
        assert forall|m: int| 0 <= m < n implies same_folded(u[m], #[trigger] needle[m]) by {
            assert(p[m + 1] == needle[m]);
            assert(same_folded(text[k + ((m + 1) - 1)], p[m + 1]));
        }
        assert(same_text_folded(u, needle));
    }
    if contains_folded(text, needle) {
        let k = choose|k: int|
            0 <= k && k + n <= text.len() && #[trigger] same_text_folded(
                text.subrange(k, k + n),
                needle,
            );
        let a = text.take(k);
        let w = text.subrange(k, k + n);
        let b = text.skip(k + n);
        assert(text =~= a + w + b);
        assert forall|m: int| 0 <= m < n implies same_folded(#[trigger] w[m], needle[m]) by {
            assert(same_folded(w[m], needle[m]));
        }
        law_like_finds_substring(a, w, b, needle);
    }
}

} // verus!
