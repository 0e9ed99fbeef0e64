//! Times as the marketplace stores them: Unix seconds written in decimal,
//! or a calendar time `YYYY-MM-DDTHH:MM:SS` (UTC, from 1970 on). Both read
//! as a number of seconds since 1970-01-01T00:00:00, by which users are
//! listed newest first.

use vstd::prelude::*;
use crate::text::{chars_of, code, code_of};

verus! {

pub open spec fn is_digit(c: char) -> bool {
    '0' <= c && c <= '9'
}

pub open spec fn digit_value(c: char) -> int {
    code(c) - code('0')
}

/// The number that the decimal digits `s` write.
pub open spec fn digits_value(s: Seq<char>) -> int
    decreases s.len(),
{
    if s.len() == 0 {
        0
    } else {
        digits_value(s.drop_last()) * 10 + digit_value(s.last())
    }
}

pub open spec fn all_digits(s: Seq<char>) -> bool {
    forall|i: int| 0 <= i < s.len() ==> is_digit(#[trigger] s[i])
}

pub open spec fn pow10(n: nat) -> int
    decreases n,
{
    if n == 0 {
        1
    } else {
        10 * pow10((n - 1) as nat)
    }
}

/// Unix seconds: one to eighteen decimal digits.
pub open spec fn is_unix_text(s: Seq<char>) -> bool {
    1 <= s.len() <= 18 && all_digits(s)
}

/// The number written by the digits of `s` from `start` for `len`
/// characters.
pub open spec fn field(s: Seq<char>, start: int, len: int) -> int {
    digits_value(s.subrange(start, start + len))
}

pub open spec fn is_leap(y: int) -> bool {
    (y % 4 == 0 && y % 100 != 0) || y % 400 == 0
}

pub open spec fn year_days(y: int) -> int {
    if is_leap(y) {
        366
    } else {
        365
    }
}

pub open spec fn month_days(y: int, m: int) -> int {
    if m == 2 {
        if is_leap(y) {
            29
        } else {
            28
        }
    } else if m == 4 || m == 6 || m == 9 || m == 11 {
        30
    } else {
        31
    }
}

/// Days from 1970-01-01 to January 1st of year `y`.
pub open spec fn days_before_year(y: int) -> int
    decreases y - 1970,
{
    if y <= 1970 {
        0
    } else {
        days_before_year(y - 1) + year_days(y - 1)
    }
}

/// Days from January 1st to the first of month `m` in year `y`.
pub open spec fn days_before_month(y: int, m: int) -> int
    decreases m,
{
    if m <= 1 {
        0
    } else {
        days_before_month(y, m - 1) + month_days(y, m - 1)
    }
}

/// Position `i` of a calendar time holds a digit.
pub open spec fn iso_digit_at(i: int) -> bool {
    i != 4 && i != 7 && i != 10 && i != 13 && i != 16
}

/// `s` is a calendar time `YYYY-MM-DDTHH:MM:SS` from 1970 on.
pub open spec fn is_iso_text(s: Seq<char>) -> bool {
    &&& s.len() == 19
    &&& forall|i: int| 0 <= i < 19 && iso_digit_at(i) ==> is_digit(#[trigger] s[i])
    &&& s[4] == '-' && s[7] == '-' && s[10] == 'T' && s[13] == ':' && s[16] == ':'
    &&& field(s, 0, 4) >= 1970
    &&& 1 <= field(s, 5, 2) <= 12
    &&& 1 <= field(s, 8, 2) <= month_days(field(s, 0, 4), field(s, 5, 2))
    &&& field(s, 11, 2) < 24
    &&& field(s, 14, 2) < 60
    &&& field(s, 17, 2) < 60
}

/// The seconds since 1970-01-01T00:00:00 of a calendar time.
pub open spec fn iso_seconds(s: Seq<char>) -> int {
    let y = field(s, 0, 4);
    let days = days_before_year(y) + days_before_month(y, field(s, 5, 2)) + field(s, 8, 2) - 1;
    days * 86400 + field(s, 11, 2) * 3600 + field(s, 14, 2) * 60 + field(s, 17, 2)
}

/// The seconds since 1970 that `s` writes, if it is a time.
pub open spec fn time_of(s: Seq<char>) -> Option<int> {
    if is_unix_text(s) {
        Some(digits_value(s))
    } else if is_iso_text(s) {
        Some(iso_seconds(s))
    } else {
        None
    }
}

/// The key that lists later times first and texts that are not times last.
pub open spec fn recency_key(s: Seq<char>) -> i64 {
    match time_of(s) {
        Some(t) => (-t) as i64,
        None => 1,
    }
}

proof fn lemma_digits_bound(s: Seq<char>)
    requires
        all_digits(s),
    ensures
        0 <= digits_value(s) < pow10(s.len()),
    decreases s.len(),
{
    if s.len() > 0 {
        assert(all_digits(s.drop_last()));
        lemma_digits_bound(s.drop_last());
        assert(is_digit(s[s.len() - 1]));
    }
}

/// The number written by all-digit positions `start..start + len`.
proof fn lemma_field_bound(s: Seq<char>, start: int, len: int)
    requires
        0 <= start,
        0 <= len <= 4,
        start + len <= s.len(),
        forall|i: int| start <= i < start + len ==> is_digit(#[trigger] s[i]),
    ensures
        0 <= field(s, start, len) < pow10(len as nat),
        pow10(2) == 100,
        pow10(4) == 10000,
{
    let sub = s.subrange(start, start + len);
    assert forall|k: int| 0 <= k < sub.len() implies is_digit(#[trigger] sub[k]) by {
        assert(sub[k] == s[start + k]);
    }
    lemma_digits_bound(sub);
    reveal_with_fuel(pow10, 5);
}

proof fn lemma_pow10_grows(a: nat, b: nat)
    requires
        a <= b,
    ensures
        pow10(a) <= pow10(b),
        pow10(a) >= 1,
    decreases b,
{
    if a < b {
        lemma_pow10_grows(a, (b - 1) as nat);
    } else if a > 0 {
        lemma_pow10_grows((a - 1) as nat, (a - 1) as nat);
    }
}

proof fn lemma_pow10_18()
    ensures
        pow10(18) == 1_000_000_000_000_000_000,
{
    reveal_with_fuel(pow10, 19);
}

/// The number that `v[start..end]` writes, when those are all digits.
fn digits_at(v: &Vec<char>, start: usize, end: usize) -> (r: Option<i64>)
    requires
        start <= end <= v@.len(),
        end - start <= 18,
    ensures
        r is Some <==> all_digits(v@.subrange(start as int, end as int)),
        r is Some ==> r->0 == digits_value(v@.subrange(start as int, end as int)),
{
    let mut acc: i64 = 0;
    let mut i = start;
    proof {
        lemma_pow10_18();
        assert(v@.subrange(start as int, start as int) =~= Seq::<char>::empty());
    }
    while i < end
        invariant
            start <= i <= end <= v@.len(),
            end - start <= 18,
            all_digits(v@.subrange(start as int, i as int)),
            acc == digits_value(v@.subrange(start as int, i as int)),
            pow10(18) == 1_000_000_000_000_000_000,
        decreases end - i,
    {
        let c = v[i];
        if !(c >= '0' && c <= '9') {
            proof {
                assert(v@.subrange(start as int, end as int)[i - start] == c);
            }
            return None;
        }
        let ghost sub = v@.subrange(start as int, i as int);
        let ghost next = v@.subrange(start as int, i + 1);
        proof {
            lemma_digits_bound(sub);
            lemma_pow10_grows(sub.len(), 17);
            assert(next.drop_last() =~= sub);
            assert(next.last() == c);
            assert forall|k: int| 0 <= k < next.len() implies is_digit(#[trigger] next[k]) by {
                if k < sub.len() {
                    assert(next[k] == sub[k]);
                }
            }
        }
        let d = (code_of(c) - code_of('0')) as i64;
        acc = acc * 10 + d;
        i = i + 1;
    }
    Some(acc)
}

/// Days from 1970 to January 1st of year `y`.
fn days_before_year_of(y: i64) -> (r: i64)
    requires
        1970 <= y <= 9999,
    ensures
        r == days_before_year(y as int),
        0 <= r <= 366 * (y - 1970),
{
    let mut acc: i64 = 0;
    let mut k: i64 = 1970;
    while k < y
        invariant
            1970 <= k <= y <= 9999,
            acc == days_before_year(k as int),
            0 <= acc <= 366 * (k - 1970),
        decreases y - k,
    {
        let leap = (k % 4 == 0 && k % 100 != 0) || k % 400 == 0;
        acc = acc + if leap {
            366
        } else {
            365
        };
        k = k + 1;
    }
    acc
}

fn month_days_of(y: i64, m: i64) -> (r: i64)
    requires
        1970 <= y <= 9999,
    ensures
        r == month_days(y as int, m as int),
        28 <= r <= 31,
{
    let leap = (y % 4 == 0 && y % 100 != 0) || y % 400 == 0;
    if m == 2 {
        if leap {
            29
        } else {
            28
        }
    } else if m == 4 || m == 6 || m == 9 || m == 11 {
        30
    } else {
        31
    }
}

/// Days from January 1st to the first of month `m`.
fn days_before_month_of(y: i64, m: i64) -> (r: i64)
    requires
        1970 <= y <= 9999,
        1 <= m <= 12,
    ensures
        r == days_before_month(y as int, m as int),
        0 <= r <= 31 * (m - 1),
{
    let mut acc: i64 = 0;
    let mut k: i64 = 1;
    while k < m
        invariant
            1 <= k <= m <= 12,
            1970 <= y <= 9999,
            acc == days_before_month(y as int, k as int),
            0 <= acc <= 31 * (k - 1),
        decreases m - k,
    {
        acc = acc + month_days_of(y, k);
        k = k + 1;
    }
    acc
}

/// The seconds since 1970 that `s` writes, if it is a time.
pub fn time_of_exec(s: &str) -> (r: Option<i64>)
    ensures
        match time_of(s@) {
            Some(t) => r == Some(t as i64) && t == r->0,
            None => r is None,
        },
{
    let v = chars_of(s);
    let n = v.len();
    proof {
        assert(v@.subrange(0, n as int) =~= v@);
    }
    if 1 <= n && n <= 18 {
        match digits_at(&v, 0, n) {
            Some(t) => return Some(t),
            None => {},
        }
    }
    if n != 19 {
        return None;
    }
    if !(v[4] == '-' && v[7] == '-' && v[10] == 'T' && v[13] == ':' && v[16] == ':') {
        return None;
    }
    let y = match digits_at(&v, 0, 4) { Some(x) => x, None => return None };
    let mo = match digits_at(&v, 5, 7) { Some(x) => x, None => return None };
    let d = match digits_at(&v, 8, 10) { Some(x) => x, None => return None };
    let h = match digits_at(&v, 11, 13) { Some(x) => x, None => return None };
    let mi = match digits_at(&v, 14, 16) { Some(x) => x, None => return None };
    let sec = match digits_at(&v, 17, 19) { Some(x) => x, None => return None };
    proof {
        lemma_digits_bound(v@.subrange(0, 4));
        lemma_digits_bound(v@.subrange(5, 7));
        lemma_digits_bound(v@.subrange(8, 10));
        lemma_digits_bound(v@.subrange(11, 13));
        lemma_digits_bound(v@.subrange(14, 16));
        lemma_digits_bound(v@.subrange(17, 19));
        reveal_with_fuel(pow10, 5);
        assert forall|i: int| 0 <= i < 19 && iso_digit_at(i) implies is_digit(#[trigger] v@[i]) by {
            if i < 4 {
                assert(v@.subrange(0, 4)[i] == v@[i]);
            } else if i < 7 {
                assert(v@.subrange(5, 7)[i - 5] == v@[i]);
            } else if i < 10 {
                assert(v@.subrange(8, 10)[i - 8] == v@[i]);
            } else if i < 13 {
                assert(v@.subrange(11, 13)[i - 11] == v@[i]);
            } else if i < 16 {
                assert(v@.subrange(14, 16)[i - 14] == v@[i]);
            } else {
                assert(v@.subrange(17, 19)[i - 17] == v@[i]);
            }
        }
    }
    if y < 1970 || mo < 1 || mo > 12 || h >= 24 || mi >= 60 || sec >= 60 {
        return None;
    }
    if d < 1 || d > month_days_of(y, mo) {
        return None;
    }
    let days = days_before_year_of(y) + days_before_month_of(y, mo) + d - 1;
    Some(days * 86400 + h * 3600 + mi * 60 + sec)
}

/// `recency_key(s)`, computed.
pub fn recency_key_of(s: &str) -> (r: i64)
    ensures
        r == recency_key(s@),
{
    match time_of_exec(s) {
        Some(t) => {
            proof {
                lemma_time_bound(s@);
            }
            -t
        },
        None => 1,
    }
}

/// A time is never negative and never past the eighteen-digit range.
pub proof fn lemma_time_bound(s: Seq<char>)
    requires
        time_of(s) is Some,
    ensures
        0 <= time_of(s)->0 < 1_000_000_000_000_000_000,
{
    if is_unix_text(s) {
        lemma_digits_bound(s);
        lemma_pow10_grows(s.len(), 18);
        lemma_pow10_18();
    } else {
        let y = field(s, 0, 4);
        lemma_field_bound(s, 0, 4);
        lemma_field_bound(s, 5, 2);
        lemma_field_bound(s, 8, 2);
        lemma_field_bound(s, 11, 2);
        lemma_field_bound(s, 14, 2);
        lemma_field_bound(s, 17, 2);
        lemma_days_before_year_bound(y);
        lemma_days_before_month_bound(y, field(s, 5, 2));
    }
}

proof fn lemma_days_before_year_bound(y: int)
    ensures
        0 <= days_before_year(y) <= 366 * (if y < 1970 { 0 } else { y - 1970 }),
    decreases y - 1970,
{
    if y > 1970 {
        lemma_days_before_year_bound(y - 1);
    }
}

proof fn lemma_days_before_month_bound(y: int, m: int)
    ensures
        0 <= days_before_month(y, m) <= 31 * (if m < 1 { 0 } else { m - 1 }),
    decreases m,
{
    if m > 1 {
        lemma_days_before_month_bound(y, m - 1);
    }
}

} // verus!
