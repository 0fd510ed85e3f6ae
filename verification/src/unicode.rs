//! The Unicode facts the conversions rest on.
//!
//! Case mapping and character classes are tables of the standard library.
//! They are given names here and nothing is proved of them: each item of this
//! module is believed as stated.

use vstd::prelude::*;

verus! {

/// The lowercase mapping of `c`, character by character.
pub uninterp spec fn lowercase_of(c: char) -> Seq<char>;

/// The uppercase mapping of `c`, character by character.
pub uninterp spec fn uppercase_of(c: char) -> Seq<char>;

/// Whether `c` has the Unicode property `Uppercase`.
pub uninterp spec fn is_upper(c: char) -> bool;

/// Whether `c` has the Unicode property `White_Space`.
pub uninterp spec fn is_space(c: char) -> bool;

/// `char::is_uppercase` tells whether a character has the property `Uppercase`.
/// Believed: the answer depends on the character alone.
pub assume_specification[ char::is_uppercase ](c: char) -> (upper: bool)
    ensures
        upper == is_upper(c),
;

/// `char::is_whitespace` tells whether a character has the property
/// `White_Space`. Believed: the answer depends on the character alone.
pub assume_specification[ char::is_whitespace ](c: char) -> (space: bool)
    ensures
        space == is_space(c),
;

/// `char::to_lowercase` yields the lowercase mapping of a character, here
/// gathered in a vector. Believed: the characters yielded, in order, depend
/// on the character alone.
#[verifier::external_body]
pub(crate) fn to_lowercase(c: char) -> (mapped: Vec<char>)
    ensures
        mapped@ == lowercase_of(c),
{
    c.to_lowercase().collect()
}

/// `char::to_uppercase` yields the uppercase mapping of a character, here
/// gathered in a vector. Believed: the characters yielded, in order, depend
/// on the character alone.
#[verifier::external_body]
pub(crate) fn to_uppercase(c: char) -> (mapped: Vec<char>)
    ensures
        mapped@ == uppercase_of(c),
{
    c.to_uppercase().collect()
}

/// `String::from_iter` on a vector of characters. Believed: the string holds
/// exactly those characters, in order.
#[verifier::external_body]
pub(crate) fn into_string(chars: Vec<char>) -> (text: String)
    ensures
        text@ == chars@,
{
    String::from_iter(chars)
}

} // verus!
