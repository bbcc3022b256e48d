//! Quoting of identifiers and values, and the writing of attribute lists.

use vstd::prelude::*;
use crate::chars::{alphanumeric_char, chars_of, is_alphanumeric, is_numeric, numeric_char, push_char};
use crate::number::{float_text, is_float_text};

verus! {

/// Every character is alphanumeric or an underscore.
pub open spec fn bare_word(s: Seq<char>) -> bool {
    forall|i: int| 0 <= i < s.len() ==> alphanumeric_char(#[trigger] s[i]) || s[i] == '_'
}

/// A non-empty text that may stand unquoted: a number if it starts with a
/// numeric character, otherwise a word of alphanumerics and underscores.
pub open spec fn stays_bare(s: Seq<char>) -> bool {
    if numeric_char(s[0]) {
        float_text(s)
    } else {
        bare_word(s)
    }
}

pub open spec fn quoted(s: Seq<char>) -> Seq<char> {
    seq!['"'] + s + seq!['"']
}

/// `s` as it is written in the output: unchanged if empty or if it may stand
/// bare, otherwise between double quotes (with nothing inside escaped).
pub open spec fn sanitized(s: Seq<char>) -> Seq<char> {
    if s.len() == 0 || stays_bare(s) {
        s
    } else {
        quoted(s)
    }
}

fn is_bare_word(s: &str) -> (r: bool)
    ensures
        r == bare_word(s@),
{
    let cs = chars_of(s);
    let mut i: usize = 0;
    while i < cs.len()
        invariant
            cs@ == s@,
            i <= cs.len(),
            forall|j: int| 0 <= j < i ==> alphanumeric_char(#[trigger] s@[j]) || s@[j] == '_',
        decreases cs.len() - i,
    {
        if !(is_alphanumeric(cs[i]) || cs[i] == '_') {
            assert(!(alphanumeric_char(s@[i as int]) || s@[i as int] == '_'));
            return false;
        }
        i = i + 1;
    }
    true
}

/// Makes `s` valid as a single token of the output: it is left as it is when
/// it is empty, a number, or a word of alphanumerics and underscores, and put
/// between double quotes otherwise.
pub fn sanitize(s: &str) -> (r: String)
    ensures
        r@ == sanitized(s@),
{
    if s.is_empty() {
        return String::new();
    }
    let first = s.get_char(0);
    let bare = if is_numeric(first) {
        is_float_text(s)
    } else {
        is_bare_word(s)
    };
    if bare {
        String::from_str(s)
    } else {
        let mut r = String::new();
        push_char(&mut r, '"');
        r.append(s);
        push_char(&mut r, '"');
        assert(r@ =~= quoted(s@));
        r
    }
}

/// A word of alphanumerics and underscores that does not start with a
/// numeric character is written unchanged.
pub proof fn lemma_sanitize_keeps_words(s: Seq<char>)
    requires
        bare_word(s),
        s.len() > 0 ==> !numeric_char(s[0]),
    ensures
        sanitized(s) == s,
{
}

/// A text holding a character that is neither alphanumeric nor an underscore
/// is written between double quotes, unless it starts with a numeric
/// character and reads as a number.
pub proof fn lemma_sanitize_quotes(s: Seq<char>)
    requires
        exists|i: int| 0 <= i < s.len() && !(alphanumeric_char(#[trigger] s[i]) || s[i] == '_'),
        !(s.len() > 0 && numeric_char(s[0]) && float_text(s)),
    ensures
        sanitized(s) == quoted(s),
{
}

/// A value that is written as one `key=value` pair.
pub trait Attribute {
    /// The key, as written.
    spec fn key_text(&self) -> Seq<char>;

    /// The value, as written.
    spec fn value_text(&self) -> Seq<char>;

    fn pair(&self) -> (r: (String, String))
        ensures
            r.0@ == self.key_text(),
            r.1@ == self.value_text(),
    ;
}

pub open spec fn attribute_text<A: Attribute>(a: A) -> Seq<char> {
    a.key_text() + seq!['='] + a.value_text()
}

/// The pairs of `attributes`, in order, separated by a comma and a space.
pub open spec fn attribute_pairs_text<A: Attribute>(attributes: Seq<A>) -> Seq<char>
    decreases attributes.len(),
{
    if attributes.len() == 0 {
        seq![]
    } else if attributes.len() == 1 {
        attribute_text(attributes[0])
    } else {
        attribute_pairs_text(attributes.drop_last()) + seq![',', ' '] + attribute_text(
            attributes.last(),
        )
    }
}

/// The bracketed attribute list that follows a node or an edge.
pub open spec fn attribute_list_text<A: Attribute>(attributes: Seq<A>) -> Seq<char> {
    seq![' ', '['] + attribute_pairs_text(attributes) + seq![']']
}

/// An attribute added to a node or an edge is written after those added
/// before it, separated from them by a comma and a space.
pub proof fn lemma_attribute_pair_order<A: Attribute>(attributes: Seq<A>, a: A)
    ensures
        attribute_pairs_text(attributes.push(a)) == if attributes.len() == 0 {
            attribute_text(a)
        } else {
            attribute_pairs_text(attributes) + seq![',', ' '] + attribute_text(a)
        },
{
    assert(attributes.push(a).drop_last() =~= attributes);
}

/// Appends `key=value` for `attribute` to `out`.
pub fn write_attribute<A: Attribute>(attribute: &A, out: &mut String)
    ensures
        final(out)@ == old(out)@ + attribute_text(*attribute),
{
    let (key, value) = attribute.pair();
    out.append(key.as_str());
    push_char(out, '=');
    out.append(value.as_str());
    assert(out@ =~= old(out)@ + attribute_text(*attribute));
}

/// Appends ` [k1=v1, k2=v2, ...]` for `attributes`, in their order, to `out`.
pub fn write_attributes<A: Attribute>(attributes: &Vec<A>, out: &mut String)
    ensures
        final(out)@ == old(out)@ + attribute_list_text(attributes@),
{
    let ghost start = out@;
    push_char(out, ' ');
    push_char(out, '[');
    let mut i: usize = 0;
    while i < attributes.len()
        invariant
            i <= attributes.len(),
            out@ == start + seq![' ', '['] + attribute_pairs_text(attributes@.take(i as int)),
        decreases attributes.len() - i,
    {
        if i > 0 {
            push_char(out, ',');
            push_char(out, ' ');
        }
        write_attribute(&attributes[i], out);
        assert(attributes@.take(i + 1).drop_last() =~= attributes@.take(i as int));
        i = i + 1;
    }
    push_char(out, ']');
    assert(attributes@.take(i as int) =~= attributes@);
    assert(out@ =~= start + attribute_list_text(attributes@));
}

} // verus!
