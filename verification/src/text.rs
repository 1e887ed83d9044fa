//! Conversions between `String`/`&str` and `Vec<char>`, so that the rest
//! of the library can work character-wise.

use vstd::prelude::*;

verus! {

/// Relies on str::chars together with Iterator::collect for Vec: the
/// collected vector holds exactly the characters of the string, in order.
#[verifier::external_body]
pub fn str_to_chars(s: &str) -> (r: Vec<char>)
    ensures
        r@ == s@,
{
    s.chars().collect()
}

/// Relies on String's FromIterator<char> implementation: collecting
/// characters yields the string of exactly those characters, in order.
#[verifier::external_body]
pub fn chars_to_string(v: &Vec<char>) -> (r: String)
    ensures
        r@ == v@,
{
    v.iter().collect()
}

/// One character of a character vector.
pub fn char_at(cs: &Vec<char>, i: usize) -> (c: char)
    requires
        i < cs@.len(),
    ensures
        c == cs@[i as int],
{
    cs[i]
}

} // verus!
