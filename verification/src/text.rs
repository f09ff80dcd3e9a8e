//! What the verified code relies on of the standard string operations it calls.

use vstd::prelude::*;

verus! {

/// `String::push` appends the character to the end of the text.
pub assume_specification[ String::push ](s: &mut String, ch: char)
    ensures
        final(s)@ == old(s)@.push(ch),
;

/// `String::pop` takes the last character off the text and returns it; an empty
/// text stays empty and gives `None`.
pub assume_specification[ String::pop ](s: &mut String) -> (r: Option<char>)
    ensures
        old(s)@.len() == 0 ==> r.is_none() && final(s)@ == old(s)@,
        old(s)@.len() > 0 ==> r == Some(old(s)@.last()) && final(s)@ == old(s)@.drop_last(),
;

/// Two string slices are equal exactly when they hold the same characters.
pub assume_specification[ <str as PartialEq>::eq ](a: &str, b: &str) -> (r: bool)
    ensures
        r == (a@ == b@),
;

} // verus!
