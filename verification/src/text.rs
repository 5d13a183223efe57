//! Text as sequences of characters: conversion from and to strings, decimal
//! numerals, and the search for one text in another.

use vstd::prelude::*;

verus! {

/// `String::push` appends one character.
pub assume_specification[ String::push ](s: &mut String, c: char)
    ensures
        final(s)@ == old(s)@.push(c),
;

/// How `text` is written by the `Debug` formatting of strings: between
/// double quotes, with the characters escaped that Rust escapes there.
pub uninterp spec fn debug_quoted(text: Seq<char>) -> Seq<char>;

/// `format!` with `{:?}` on a string slice: std's `Debug` form of it, which
/// depends on the text alone.
#[verifier::external_body]
pub(crate) fn quoted(text: &str) -> (out: String)
    ensures
        out@ == debug_quoted(text@),
{
    format!("{:?}", text)
}

/// The characters of `s`, in order.
pub fn chars_of(s: &str) -> (v: Vec<char>)
    ensures
        v@ == s@,
{
    let mut v: Vec<char> = Vec::new();
    for c in it: s.chars()
        invariant
            v@ == it.seq().take(it.index() as int),
            it.seq() == s@,
    {
        v.push(c);
    }
    v
}

/// The string made of the characters of `v`, in order.
pub fn string_of(v: &Vec<char>) -> (s: String)
    ensures
        s@ == v@,
{
    let mut s = String::new();
    let mut i: usize = 0;
    while i < v.len()
        invariant
            i <= v.len(),
            s@ == v@.take(i as int),
        decreases v.len() - i,
    {
        s.push(v[i]);
        i += 1;
    }
    s
}

/// The numeral of a single digit.
pub open spec fn digit_char(d: nat) -> char {
    if d == 0 {
        '0'
    } else if d == 1 {
        '1'
    } else if d == 2 {
        '2'
    } else if d == 3 {
        '3'
    } else if d == 4 {
        '4'
    } else if d == 5 {
        '5'
    } else if d == 6 {
        '6'
    } else if d == 7 {
        '7'
    } else if d == 8 {
        '8'
    } else {
        '9'
    }
}

/// The decimal numeral of `n`, without leading zeros.
pub open spec fn decimal(n: nat) -> Seq<char>
    decreases n,
{
    if n < 10 {
        seq![digit_char(n)]
    } else {
        decimal(n / 10).push(digit_char(n % 10))
    }
}

fn digit(d: u128) -> (c: char)
    requires
        d < 10,
    ensures
        c == digit_char(d as nat),
{
    if d == 0 {
        '0'
    } else if d == 1 {
        '1'
    } else if d == 2 {
        '2'
    } else if d == 3 {
        '3'
    } else if d == 4 {
        '4'
    } else if d == 5 {
        '5'
    } else if d == 6 {
        '6'
    } else if d == 7 {
        '7'
    } else if d == 8 {
        '8'
    } else {
        '9'
    }
}

/// Appends the decimal numeral of `n` to `out`.
pub fn push_decimal(out: &mut Vec<char>, n: u128)
    ensures
        final(out)@ == old(out)@ + decimal(n as nat),
    decreases n,
{
    if n >= 10 {
        push_decimal(out, n / 10);
    }
    out.push(digit(n % 10));
    assert(out@ =~= old(out)@ + decimal(n as nat));
}

/// Appends the characters of `s` to `out`.
pub fn push_text(out: &mut Vec<char>, s: &str)
    ensures
        final(out)@ == old(out)@ + s@,
{
    for c in it: s.chars()
        invariant
            out@ == old(out)@ + it.seq().take(it.index() as int),
            it.seq() == s@,
    {
        out.push(c);
        assert(it.seq().take(it.index() + 1) =~= it.seq().take(it.index() as int).push(c));
    }
}

/// Appends `n` spaces to `out`.
pub fn push_spaces(out: &mut Vec<char>, n: usize)
    ensures
        final(out)@ == old(out)@ + crate::tabs::spaces(n as nat),
{
    let mut i: usize = 0;
    while i < n
        invariant
            i <= n,
            out@ == old(out)@ + crate::tabs::spaces(i as nat),
        decreases n - i,
    {
        out.push(' ');
        i += 1;
        assert(out@ =~= old(out)@ + crate::tabs::spaces(i as nat));
    }
}

/// Whether `needle` stands in `hay` at position `i`.
pub open spec fn occurs_at(hay: Seq<char>, needle: Seq<char>, i: int) -> bool {
    &&& 0 <= i
    &&& i + needle.len() <= hay.len()
    &&& hay.subrange(i, i + needle.len()) == needle
}

/// Whether `at` is the first position from `start` on at which `needle`
/// stands in `hay`, or `None` where there is no such position.
pub open spec fn is_first_from(
    hay: Seq<char>,
    needle: Seq<char>,
    start: int,
    at: Option<usize>,
) -> bool {
    match at {
        Some(i) => {
            &&& start <= i
            &&& occurs_at(hay, needle, i as int)
            &&& forall|j: int| start <= j < i ==> !occurs_at(hay, needle, j)
        },
        None => forall|j: int| start <= j ==> !occurs_at(hay, needle, j),
    }
}

/// Whether `at` is the last position at which `needle` stands in the first
/// `end` characters of `hay`, or `None` where there is no such position.
pub open spec fn is_last_before(
    hay: Seq<char>,
    needle: Seq<char>,
    end: int,
    at: Option<usize>,
) -> bool {
    match at {
        Some(i) => {
            &&& i + needle.len() <= end
            &&& occurs_at(hay, needle, i as int)
            &&& forall|j: int| i < j && j + needle.len() <= end ==> !occurs_at(hay, needle, j)
        },
        None => forall|j: int| j + needle.len() <= end ==> !occurs_at(hay, needle, j),
    }
}

/// There is one first occurrence from `start` on, or none.
pub proof fn lemma_first_from_unique(
    hay: Seq<char>,
    needle: Seq<char>,
    start: int,
    a: Option<usize>,
    b: Option<usize>,
)
    requires
        is_first_from(hay, needle, start, a),
        is_first_from(hay, needle, start, b),
    ensures
        a == b,
{
    match (a, b) {
        (Some(i), Some(j)) => {
            if i < j {
                assert(!occurs_at(hay, needle, i as int));
            }
            if j < i {
                assert(!occurs_at(hay, needle, j as int));
            }
        },
        (Some(i), None) => {
            assert(!occurs_at(hay, needle, i as int));
        },
        (None, Some(j)) => {
            assert(!occurs_at(hay, needle, j as int));
        },
        (None, None) => {},
    }
}

/// There is one last occurrence in the first `end` characters, or none.
pub proof fn lemma_last_before_unique(
    hay: Seq<char>,
    needle: Seq<char>,
    end: int,
    a: Option<usize>,
    b: Option<usize>,
)
    requires
        is_last_before(hay, needle, end, a),
        is_last_before(hay, needle, end, b),
    ensures
        a == b,
{
    match (a, b) {
        (Some(i), Some(j)) => {
            if i < j {
                assert(!occurs_at(hay, needle, j as int));
            }
            if j < i {
                assert(!occurs_at(hay, needle, i as int));
            }
        },
        (Some(i), None) => {
            assert(!occurs_at(hay, needle, i as int));
        },
        (None, Some(j)) => {
            assert(!occurs_at(hay, needle, j as int));
        },
        (None, None) => {},
    }
}

/// Whether `needle` stands in `hay` at position `i`, which leaves room for
/// it.
fn matches_at(hay: &Vec<char>, needle: &Vec<char>, i: usize) -> (found: bool)
    requires
        i + needle@.len() <= hay@.len(),
    ensures
        found == occurs_at(hay@, needle@, i as int),
{
    let mut k: usize = 0;
    assert(hay.len() <= usize::MAX);
    while k < needle.len()
        invariant
            k <= needle@.len(),
            i + needle@.len() <= hay@.len() <= usize::MAX,
            forall|j: int| 0 <= j < k ==> hay@[i + j] == needle@[j],
        decreases needle@.len() - k,
    {
        if hay[i + k] != needle[k] {
            assert(hay@.subrange(i as int, i + needle@.len())[k as int] != needle@[k as int]);
            return false;
        }
        k += 1;
    }
    assert(hay@.subrange(i as int, i + needle@.len()) =~= needle@);
    true
}

/// The first position from `start` on at which `needle` stands in `hay`.
pub fn find_from(hay: &Vec<char>, needle: &Vec<char>, start: usize) -> (at: Option<usize>)
    ensures
        is_first_from(hay@, needle@, start as int, at),
{
    if needle.len() > hay.len() {
        return None;
    }
    let last = hay.len() - needle.len();
    if start > last {
        return None;
    }
    let mut i: usize = start;
    loop
        invariant
            start <= i <= last,
            last == hay@.len() - needle@.len(),
            forall|j: int| start <= j < i ==> !occurs_at(hay@, needle@, j),
        decreases last - i,
    {
        if matches_at(hay, needle, i) {
            return Some(i);
        }
        if i == last {
            return None;
        }
        i += 1;
    }
}

/// The last position at which `needle` stands in the first `end` characters
/// of `hay`.
pub fn rfind_before(hay: &Vec<char>, needle: &Vec<char>, end: usize) -> (at: Option<usize>)
    requires
        end <= hay@.len(),
    ensures
        is_last_before(hay@, needle@, end as int, at),
{
    if needle.len() > end {
        return None;
    }
    let mut i: usize = end - needle.len();
    loop
        invariant
            i + needle@.len() <= end <= hay@.len(),
            forall|j: int| i < j && j + needle@.len() <= end ==> !occurs_at(hay@, needle@, j),
        decreases i,
    {
        if matches_at(hay, needle, i) {
            return Some(i);
        }
        if i == 0 {
            return None;
        }
        i -= 1;
    }
}

} // verus!
