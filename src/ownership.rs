use vstd::prelude::*;
use crate::lifetimes::is_first_word;
use vstd::utf8::encode_utf8;

verus! {

/// A freshly allocated `"goodbye"`, handed to the caller.
pub fn gives_ownership() -> (r: String)
    ensures
        r@ == "goodbye"@,
{
    let some_string = String::from_str("goodbye");
    some_string
}

/// Takes a string and hands the same string back.
pub fn takes_and_gives_back(a_string: String) -> (r: String)
    ensures
        r == a_string,
{
    a_string
}

/// The length of `s` in bytes.
pub fn calculate_length(s: &String) -> (r: usize)
    ensures
        r == encode_utf8(s@).len() as usize,
{
    s.as_str().len()
}

/// Appends `" has been changed"` to `some_string`.
pub fn change(some_string: &mut String)
    ensures
        final(some_string)@ == old(some_string)@ + " has been changed"@,
{
    some_string.append(" has been changed");
}

/// A freshly allocated `"no dangle"`, moved out to the caller.
pub fn no_dangle() -> (r: String)
    ensures
        r@ == "no dangle"@,
{
    let s = String::from_str("no dangle");
    s
}

/// The first word of an owned string, borrowed from it.
pub fn first_word(s: &String) -> (r: &str)
    ensures
        is_first_word(s@, r@),
{
    first_word_improved(s.as_str())
}

/// The first word of any string slice.
pub fn first_word_improved(s: &str) -> (r: &str)
    ensures
        is_first_word(s@, r@),
{
    crate::lifetimes::first_word(s)
}

} // verus!
