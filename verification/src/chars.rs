//! Character classes.

use vstd::prelude::*;

verus! {

/// Whether the standard library classifies `c` as alphanumeric (a letter or a number of any
/// script). The classification is a table of the standard library, so it is named here
/// rather than written out.
pub uninterp spec fn char_is_alphanumeric(c: char) -> bool;

/// Calls `char::is_alphanumeric`. Trusted: the result is the standard library's
/// classification of `c`, which depends on `c` alone.
#[verifier::external_body]
fn is_alphanumeric(c: char) -> (b: bool)
    ensures
        b == char_is_alphanumeric(c),
{
    c.is_alphanumeric()
}

/// A word character is an alphanumeric character or an underscore.
pub open spec fn is_word(c: char) -> bool {
    char_is_alphanumeric(c) || c == '_'
}

/// Whether `c` can be part of a word.
pub fn char_is_word(c: char) -> (b: bool)
    ensures
        b == is_word(c),
{
    is_alphanumeric(c) || c == '_'
}

} // verus!
