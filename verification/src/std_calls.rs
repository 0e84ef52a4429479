//! Trusted wrappers around the few functions of std that vstd gives no
//! specification and that the library calls.
use vstd::prelude::*;

verus! {

/// `String::push`: its documentation says that it appends the given `char`
/// to the end of the string; that is all this contract claims.
#[verifier::external_body]
pub(crate) fn push_char(s: &mut String, c: char)
    ensures
        final(s)@ == old(s)@.push(c),
{
    s.push(c);
}


/// What `str::to_uppercase` returns for a text: the text with each character
/// replaced by its Unicode uppercase mapping.
pub uninterp spec fn uppercase(text: Seq<char>) -> Seq<char>;

/// `str::to_uppercase`: claims only that the result is the named outcome
/// [`uppercase`] of the text it was handed.
#[verifier::external_body]
pub(crate) fn to_uppercase(text: &str) -> (r: String)
    ensures
        r@ == uppercase(text@),
{
    text.to_uppercase()
}

} // verus!
