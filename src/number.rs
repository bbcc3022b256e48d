//! Which texts read as a number: the grammar that Rust's `f32::from_str`
//! documents, written out and decided on characters.

use vstd::prelude::*;
use crate::chars::chars_of;

verus! {

pub open spec fn is_digit(c: char) -> bool {
    '0' <= c && c <= '9'
}

pub open spec fn sign_char(c: char) -> bool {
    c == '+' || c == '-'
}

pub open spec fn exponent_marker(c: char) -> bool {
    c == 'e' || c == 'E'
}

/// Digits with at most one decimal point among them, and at least one digit.
pub open spec fn mantissa_text(m: Seq<char>) -> bool {
    &&& forall|i: int| 0 <= i < m.len() ==> is_digit(#[trigger] m[i]) || m[i] == '.'
    &&& forall|i: int, j: int|
        0 <= i < m.len() && 0 <= j < m.len() && #[trigger] m[i] == '.' && #[trigger] m[j] == '.'
            ==> i == j
    &&& exists|i: int| 0 <= i < m.len() && is_digit(#[trigger] m[i])
}

/// What follows an exponent marker: an optional sign, then one digit or more.
pub open spec fn exponent_text(x: Seq<char>) -> bool {
    let d = unsigned_part(x);
    d.len() > 0 && forall|i: int| 0 <= i < d.len() ==> is_digit(#[trigger] d[i])
}

/// A mantissa, optionally followed by an exponent marker and an exponent.
pub open spec fn decimal_text(u: Seq<char>) -> bool {
    ||| (forall|i: int| 0 <= i < u.len() ==> !exponent_marker(#[trigger] u[i])) && mantissa_text(u)
    ||| exists|k: int|
        0 <= k < u.len() && exponent_marker(#[trigger] u[k]) && mantissa_text(u.take(k))
            && exponent_text(u.skip(k + 1))
}

pub open spec fn ascii_lower(c: char) -> char {
    if 'A' <= c && c <= 'Z' {
        ((c as u32) + 32) as char
    } else {
        c
    }
}

/// The names of the infinite and undefined values, in any ASCII case.
pub open spec fn special_text(u: Seq<char>) -> bool {
    let l = u.map_values(|c: char| ascii_lower(c));
    ||| l == seq!['i', 'n', 'f']
    ||| l == seq!['i', 'n', 'f', 'i', 'n', 'i', 't', 'y']
    ||| l == seq!['n', 'a', 'n']
}

/// The text without its leading sign, if it has one.
pub open spec fn unsigned_part(s: Seq<char>) -> Seq<char> {
    if s.len() > 0 && sign_char(s[0]) {
        s.drop_first()
    } else {
        s
    }
}

/// `s` reads as a floating-point number: an optional sign, then a decimal
/// number or the name of an infinite or undefined value. Leading or trailing
/// white space is not allowed.
pub open spec fn float_text(s: Seq<char>) -> bool {
    special_text(unsigned_part(s)) || decimal_text(unsigned_part(s))
}

fn ascii_lower_char(c: char) -> (r: char)
    ensures
        r == ascii_lower(c),
{
    if 'A' <= c && c <= 'Z' {
        ((c as u8) + 32) as char
    } else {
        c
    }
}

/// Whether `cs[lo..]`, lower-cased, is exactly `word`.
fn lower_equals(cs: &Vec<char>, lo: usize, word: &Vec<char>) -> (r: bool)
    requires
        lo <= cs.len(),
    ensures
        r == (cs@.skip(lo as int).map_values(|c: char| ascii_lower(c)) == word@),
{
    let ghost l = cs@.skip(lo as int).map_values(|c: char| ascii_lower(c));
    if cs.len() - lo != word.len() {
        return false;
    }
    let mut i: usize = 0;
    while i < word.len()
        invariant
            cs.len() - lo == word.len(),
            lo <= cs.len(),
            l == cs@.skip(lo as int).map_values(|c: char| ascii_lower(c)),
            l.len() == word.len(),
            i <= word.len(),
            forall|j: int| 0 <= j < i ==> l[j] == word@[j],
        decreases word.len() - i,
    {
        if ascii_lower_char(cs[lo + i]) != word[i] {
            assert(l[i as int] != word@[i as int]);
            return false;
        }
        i = i + 1;
    }
    assert(l =~= word@);
    true
}

fn special_ok(cs: &Vec<char>, lo: usize) -> (r: bool)
    requires
        lo <= cs.len(),
    ensures
        r == special_text(cs@.skip(lo as int)),
{
    let inf = vec!['i', 'n', 'f'];
    let infinity = vec!['i', 'n', 'f', 'i', 'n', 'i', 't', 'y'];
    let nan = vec!['n', 'a', 'n'];
    assert(inf@ =~= seq!['i', 'n', 'f']);
    assert(infinity@ =~= seq!['i', 'n', 'f', 'i', 'n', 'i', 't', 'y']);
    assert(nan@ =~= seq!['n', 'a', 'n']);
    lower_equals(cs, lo, &inf) || lower_equals(cs, lo, &infinity) || lower_equals(cs, lo, &nan)
}

fn mantissa_ok(cs: &Vec<char>, lo: usize, hi: usize) -> (r: bool)
    requires
        lo <= hi <= cs.len(),
    ensures
        r == mantissa_text(cs@.subrange(lo as int, hi as int)),
{
    let ghost m = cs@.subrange(lo as int, hi as int);
    let mut seen_point = false;
    let mut seen_digit = false;
    let ghost mut point: int = 0;
    let mut i: usize = lo;
    while i < hi
        invariant
            lo <= i <= hi <= cs.len(),
            m == cs@.subrange(lo as int, hi as int),
            forall|j: int| 0 <= j < i - lo ==> is_digit(#[trigger] m[j]) || m[j] == '.',
            seen_point ==> 0 <= point < i - lo && m[point] == '.',
            forall|j: int| 0 <= j < i - lo && #[trigger] m[j] == '.' ==> seen_point && j == point,
            seen_digit <==> exists|j: int| 0 <= j < i - lo && is_digit(#[trigger] m[j]),
        decreases hi - i,
    {
        let c = cs[i];
        assert(m[i - lo] == c);
        if c == '.' {
            if seen_point {
                assert(m[point] == '.' && m[i - lo] == '.');
                return false;
            }
            seen_point = true;
            proof {
                point = i - lo;
            }
        } else if '0' <= c && c <= '9' {
            seen_digit = true;
        } else {
            return false;
        }
        i = i + 1;
    }
    seen_digit
}

fn exponent_ok(cs: &Vec<char>, lo: usize) -> (r: bool)
    requires
        lo <= cs.len(),
    ensures
        r == exponent_text(cs@.skip(lo as int)),
{
    let ghost x = cs@.skip(lo as int);
    let start: usize = if lo < cs.len() && (cs[lo] == '+' || cs[lo] == '-') {
        lo + 1
    } else {
        lo
    };
    let ghost d = cs@.skip(start as int);
    assert(d =~= unsigned_part(x));
    if start == cs.len() {
        return false;
    }
    let mut i: usize = start;
    while i < cs.len()
        invariant
            start <= i <= cs.len(),
            d == cs@.skip(start as int),
            x == cs@.skip(lo as int),
            d == unsigned_part(x),
            forall|j: int| 0 <= j < i - start ==> is_digit(#[trigger] d[j]),
        decreases cs.len() - i,
    {
        if !('0' <= cs[i] && cs[i] <= '9') {
            assert(d[i - start] == cs@[i as int]);
            return false;
        }
        i = i + 1;
    }
    true
}

fn decimal_ok(cs: &Vec<char>, lo: usize) -> (r: bool)
    requires
        lo <= cs.len(),
    ensures
        r == decimal_text(cs@.skip(lo as int)),
{
    let ghost u = cs@.skip(lo as int);
    let mut p: usize = lo;
    while p < cs.len() && !(cs[p] == 'e' || cs[p] == 'E')
        invariant
            lo <= p <= cs.len(),
            u == cs@.skip(lo as int),
            forall|j: int| 0 <= j < p - lo ==> !exponent_marker(#[trigger] u[j]),
        decreases cs.len() - p,
    {
        p = p + 1;
    }
    if p == cs.len() {
        assert(cs@.subrange(lo as int, p as int) =~= u);
        let r = mantissa_ok(cs, lo, p);
        assert forall|k: int|
            0 <= k < u.len() && exponent_marker(#[trigger] u[k]) implies !(mantissa_text(u.take(k))
            && exponent_text(u.skip(k + 1))) by {}
        r
    } else {
        let k = p - lo;
        assert(cs@.subrange(lo as int, p as int) =~= u.take(k as int));
        assert(cs@.skip(p + 1) =~= u.skip(k + 1));
        assert(exponent_marker(u[k as int]));
        let r = mantissa_ok(cs, lo, p) && exponent_ok(cs, p + 1);
        assert forall|k2: int|
            0 <= k2 < u.len() && exponent_marker(#[trigger] u[k2]) && k2 != k implies !mantissa_text(
            u.take(k2),
        ) by {
            assert(k < k2);
            assert(u.take(k2)[k as int] == u[k as int]);
        }
        r
    }
}

/// Whether `s` reads as a floating-point number (see [`float_text`]).
pub fn is_float_text(s: &str) -> (r: bool)
    ensures
        r == float_text(s@),
{
    let cs = chars_of(s);
    let lo: usize = if cs.len() > 0 && (cs[0] == '+' || cs[0] == '-') {
        1
    } else {
        0
    };
    assert(cs@.skip(lo as int) =~= unsigned_part(s@));
    special_ok(&cs, lo) || decimal_ok(&cs, lo)
}

} // verus!
