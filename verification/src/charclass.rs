//! Unicode character classification, relied on for name validation.  The
//! classes themselves are defined by the Unicode tables that the standard
//! library implements; this library only names their results.

use vstd::prelude::*;

verus! {

/// Whether the character is alphanumeric in the Unicode sense; decided by the
/// Unicode character tables, which this library does not restate.
pub uninterp spec fn alphanumeric_char(c: char) -> bool;

/// Whether the character is lowercase in the Unicode sense.
pub uninterp spec fn lowercase_char(c: char) -> bool;

/// Whether the character is numeric in the Unicode sense.
pub uninterp spec fn numeric_char(c: char) -> bool;

/// Relies on char::is_alphanumeric: whether the character is in one of the
/// Unicode Alphabetic or Number classes; depends on the character alone.
#[verifier::external_body]
pub(crate) fn is_alphanumeric_char(c: char) -> (r: bool)
    ensures
        r == alphanumeric_char(c),
{
    c.is_alphanumeric()
}

/// Relies on char::is_lowercase: whether the character is in the Unicode
/// Lowercase class; depends on the character alone.
#[verifier::external_body]
pub(crate) fn is_lowercase_char(c: char) -> (r: bool)
    ensures
        r == lowercase_char(c),
{
    c.is_lowercase()
}

/// Relies on char::is_numeric: whether the character is in one of the Unicode
/// Number classes; depends on the character alone.
#[verifier::external_body]
pub(crate) fn is_numeric_char(c: char) -> (r: bool)
    ensures
        r == numeric_char(c),
{
    c.is_numeric()
}

} // verus!
