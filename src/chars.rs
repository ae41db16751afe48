//! Character classes and ASCII case normalisation, in spec and exec form.
use vstd::prelude::*;

verus! {

pub open spec fn is_digit(c: char) -> bool {
    '0' <= c <= '9'
}

pub open spec fn is_upper(c: char) -> bool {
    'A' <= c <= 'Z'
}

pub open spec fn is_lower(c: char) -> bool {
    'a' <= c <= 'z'
}

pub open spec fn is_letter(c: char) -> bool {
    is_upper(c) || is_lower(c)
}

pub open spec fn is_alnum(c: char) -> bool {
    is_letter(c) || is_digit(c)
}

/// The ASCII upper-case form of a character: `a`..`z` become `A`..`Z`,
/// every other character is kept.
pub open spec fn upper_char(c: char) -> char {
    if is_lower(c) {
        (((c as u32) - 32) as u32) as char
    } else {
        c
    }
}

/// The ASCII upper-case form of a string, character by character.
pub open spec fn ascii_upper(s: Seq<char>) -> Seq<char> {
    s.map_values(|c: char| upper_char(c))
}

/// Relies on `str::to_ascii_uppercase`: each of `a`..`z` is mapped to its
/// upper-case letter and every other character is left as it is.
#[verifier::external_body]
pub(crate) fn to_ascii_upper(s: &str) -> (r: String)
    ensures
        r@ == ascii_upper(s@),
{
    s.to_ascii_uppercase()
}

/// Whether `c` is one of `0`..`9`.
pub fn digit(c: char) -> (r: bool)
    ensures
        r == is_digit(c),
{
    '0' <= c && c <= '9'
}

/// Whether `c` is one of `A`..`Z`.
pub fn upper(c: char) -> (r: bool)
    ensures
        r == is_upper(c),
{
    'A' <= c && c <= 'Z'
}

/// Upper-casing turns exactly the ASCII letters into upper-case letters,
/// keeps digits and everything but `a`..`z`, and is idempotent.
pub proof fn lemma_upper_char(c: char)
    ensures
        is_upper(upper_char(c)) <==> is_letter(c),
        is_digit(upper_char(c)) <==> is_digit(c),
        upper_char(upper_char(c)) == upper_char(c),
        !is_lower(c) ==> upper_char(c) == c,
{
}

} // verus!
