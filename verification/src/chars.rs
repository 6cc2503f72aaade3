//! Strings as vectors of characters, and back.
//!
//! The widget keeps its text as a vector of characters, so that a position
//! is an index and every character is reached in constant time. Text comes
//! in and goes out as strings.

use vstd::prelude::*;

verus! {

/// Trusted: `String::push` appends the character to the end of the string.
pub assume_specification[ String::push ](s: &mut String, ch: char)
    ensures
        final(s)@ == old(s)@.push(ch),
;

/// The characters of `s`, one by one.
pub fn chars_of(s: &str) -> (chars: Vec<char>)
    ensures
        chars@ == s@,
{
    let mut chars: Vec<char> = Vec::new();
    for c in it: s.chars()
        invariant
            chars@ == it.seq().take(it.index() as int),
            it.seq() == s@,
    {
        chars.push(c);
    }
    chars
}

/// The first `upto` characters of `chars` as a string.
pub fn string_of_prefix(chars: &Vec<char>, upto: usize) -> (s: String)
    requires
        upto <= chars.len(),
    ensures
        s@ == chars@.take(upto as int),
{
    let mut s = String::new();
    let mut i: usize = 0;
    while i < upto
        invariant
            i <= upto <= chars.len(),
            s@ == chars@.take(i as int),
        decreases upto - i,
    {
        s.push(chars[i]);
        proof {
            assert(chars@.take(i + 1) =~= chars@.take(i as int).push(chars@[i as int]));
        }
        i += 1;
    }
    s
}

} // verus!
