//! Case properties of characters.
//!
//! Which characters are uppercase, and what their lowercase forms are, is
//! decided by the Unicode tables of the standard library. The two functions at
//! the end of this file are the only code in the crate that Verus does not
//! check: their contracts are taken on trust.

use vstd::prelude::*;

verus! {

/// Whether `c` has the Unicode `Uppercase` property, as `char::is_uppercase`
/// reports it.
pub uninterp spec fn is_uppercase(c: char) -> bool;

/// The lowercase mapping of `c`: the characters that `char::to_lowercase`
/// yields, in order.
pub uninterp spec fn lowercase_mapping(c: char) -> Seq<char>;

/// Calls `char::is_uppercase`.
///
/// Trusted: the result is the standard library's answer, to which
/// [`is_uppercase`] gives a name. Nothing else is claimed of it.
#[verifier::external_body]
pub(crate) fn char_is_uppercase(c: char) -> (upper: bool)
    ensures
        upper == is_uppercase(c),
{
    c.is_uppercase()
}

/// Calls `char::to_lowercase` and collects what the iterator yields.
///
/// Trusted: the result holds the standard library's lowercase mapping, to
/// which [`lowercase_mapping`] gives a name. Nothing is claimed of its length
/// or contents.
#[verifier::external_body]
pub(crate) fn char_to_lowercase(c: char) -> (mapping: Vec<char>)
    ensures
        mapping@ == lowercase_mapping(c),
{
    c.to_lowercase().collect()
}

} // verus!
