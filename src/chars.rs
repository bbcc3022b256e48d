//! Character classes and small string helpers that the writers build on.

use vstd::prelude::*;

verus! {

/// `c` is numeric in Unicode's sense (general categories Nd, Nl and No).
pub uninterp spec fn numeric_char(c: char) -> bool;

/// `c` is alphabetic or numeric in Unicode's sense.
pub uninterp spec fn alphanumeric_char(c: char) -> bool;

/// Relies on `char::is_numeric`, which tests Unicode's numeric categories.
#[verifier::external_body]
pub(crate) fn is_numeric(c: char) -> (r: bool)
    ensures
        r == numeric_char(c),
{
    c.is_numeric()
}

/// Relies on `char::is_alphanumeric`, which tests Unicode's alphabetic
/// property and numeric categories.
#[verifier::external_body]
pub(crate) fn is_alphanumeric(c: char) -> (r: bool)
    ensures
        r == alphanumeric_char(c),
{
    c.is_alphanumeric()
}

/// Relies on `String::push`: appends one character.
#[verifier::external_body]
pub(crate) fn push_char(s: &mut String, c: char)
    ensures
        final(s)@ == old(s)@.push(c),
{
    s.push(c);
}

/// The characters of `s`, in order.
pub fn chars_of(s: &str) -> (r: Vec<char>)
    ensures
        r@ == s@,
{
    let mut v: Vec<char> = Vec::new();
    for c in it: s.chars()
        invariant
            v@ == it.seq().take(it.index()),
    {
        v.push(c);
    }
    v
}

} // verus!
