//! Text as sequences of characters: conversion from strings, the
//! lexicographic order used when listings are sorted by a text column,
//! and ASCII case folding.

use vstd::prelude::*;

verus! {

/// The characters of `s`, in order.
pub fn chars_of(s: &str) -> (r: Vec<char>)
    ensures
        r@ == s@,
{
    let mut r: Vec<char> = Vec::new();
    for c in it: s.chars()
        invariant
            r@ == it.seq().take(it.index() as int),
            it.seq() == s@,
    {
        r.push(c);
    }
    r
}

/// The code point of a character.
pub open spec fn code(c: char) -> int {
    c as int
}

/// Lexicographic order on character sequences, compared by code point: the
/// order in which a byte-wise collation of UTF-8 text sorts strings.
pub open spec fn text_le(a: Seq<char>, b: Seq<char>) -> bool
    decreases a.len(),
{
    if a.len() == 0 {
        true
    } else if b.len() == 0 {
        false
    } else if code(a[0]) < code(b[0]) {
        true
    } else if code(a[0]) > code(b[0]) {
        false
    } else {
        text_le(a.drop_first(), b.drop_first())
    }
}

pub proof fn lemma_text_le_reflexive(a: Seq<char>)
    ensures
        text_le(a, a),
    decreases a.len(),
{
    if a.len() > 0 {
        lemma_text_le_reflexive(a.drop_first());
    }
}

pub proof fn lemma_text_le_total(a: Seq<char>, b: Seq<char>)
    ensures
        text_le(a, b) || text_le(b, a),
    decreases a.len(),
{
    if a.len() > 0 && b.len() > 0 && code(a[0]) == code(b[0]) {
        lemma_text_le_total(a.drop_first(), b.drop_first());
    }
}

pub proof fn lemma_text_le_transitive(a: Seq<char>, b: Seq<char>, c: Seq<char>)
    requires
        text_le(a, b),
        text_le(b, c),
    ensures
        text_le(a, c),
    decreases a.len(),
{
    if a.len() > 0 && b.len() > 0 && c.len() > 0 && code(a[0]) == code(b[0]) && code(b[0])
        == code(c[0]) {
        lemma_text_le_transitive(a.drop_first(), b.drop_first(), c.drop_first());
    }
}

pub proof fn lemma_text_le_antisymmetric(a: Seq<char>, b: Seq<char>)
    requires
        text_le(a, b),
        text_le(b, a),
    ensures
        a == b,
    decreases a.len(),
{
    if a.len() > 0 && b.len() > 0 {
        lemma_text_le_antisymmetric(a.drop_first(), b.drop_first());
        assert(a[0] == b[0]);
        assert(a =~= seq![a[0]] + a.drop_first());
        assert(b =~= seq![b[0]] + b.drop_first());
    }
}

/// Whether `a` sorts at or before `b` in the lexicographic order.
pub fn text_le_exec(a: &Vec<char>, b: &Vec<char>) -> (r: bool)
    ensures
        r == text_le(a@, b@),
{
    let mut i: usize = 0;
    assert(a@.skip(0) =~= a@);
    assert(b@.skip(0) =~= b@);
    while i < a.len() && i < b.len()
        invariant
            i <= a.len(),
            i <= b.len(),
            text_le(a@, b@) == text_le(a@.skip(i as int), b@.skip(i as int)),
        decreases a.len() - i,
    {
        assert(a@.skip(i as int)[0] == a@[i as int]);
        assert(b@.skip(i as int)[0] == b@[i as int]);
        let xa: char = a[i];
        let xb: char = b[i];
        if xa != xb {
            return xa < xb;
        }
        assert(a@.skip(i as int).drop_first() =~= a@.skip(i + 1));
        assert(b@.skip(i as int).drop_first() =~= b@.skip(i + 1));
        i = i + 1;
    }
    i == a.len()
}

/// The code point of `c`.
pub fn code_of(c: char) -> (r: u32)
    ensures
        r == code(c),
{
    c as u32
}

/// The code point of `c` after ASCII upper-case letters are mapped to their
/// lower-case forms; every other character is left as it is.
pub open spec fn fold(c: char) -> int {
    if code('A') <= code(c) <= code('Z') {
        code(c) + 32
    } else {
        code(c)
    }
}

/// `fold` of `c`, computed.
pub fn fold_of(c: char) -> (r: u32)
    ensures
        r == fold(c),
{
    if c >= 'A' && c <= 'Z' {
        code_of(c) + 32
    } else {
        code_of(c)
    }
}

/// `c` with an ASCII upper-case letter mapped to its lower-case form.
pub open spec fn fold_char(c: char) -> char {
    if 'A' <= c && c <= 'Z' {
        ((c as int) + 32) as char
    } else {
        c
    }
}

/// `s` with its ASCII upper-case letters mapped to lower case: the key by
/// which names are ordered alphabetically.
pub open spec fn fold_text(s: Seq<char>) -> Seq<char> {
    Seq::new(s.len(), |i: int| fold_char(s[i]))
}

/// `fold_char(c)`, computed.
pub fn fold_char_of(c: char) -> (r: char)
    ensures
        r == fold_char(c),
{
    if c >= 'A' && c <= 'Z' {
        let b: u8 = c as u8;
        (b + 32) as char
    } else {
        c
    }
}

/// The characters of `s` with ASCII letters in lower case.
pub fn folded_chars(s: &str) -> (r: Vec<char>)
    ensures
        r@ == fold_text(s@),
{
    let v = chars_of(s);
    let mut r: Vec<char> = Vec::new();
    for i in 0..v.len()
        invariant
            v@ == s@,
            r@ == fold_text(v@.take(i as int)),
    {
        r.push(fold_char_of(v[i]));
        assert(fold_text(v@.take(i + 1)) =~= fold_text(v@.take(i as int)).push(fold_char(v@[i as int])));
    }
    assert(v@.take(v@.len() as int) =~= v@);
    r
}

} // verus!
