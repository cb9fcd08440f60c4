//! Entity names as the bot compares them.
use vstd::prelude::*;
use crate::text::{trim, trim_of};

verus! {

/// The lowercase form of a text under Unicode case mapping.
pub uninterp spec fn lowercase_of(s: Seq<char>) -> Seq<char>;

/// Calls `str::to_lowercase`, which std documents as the Unicode lowercase mapping; the
/// contract names that mapping.
#[verifier::external_body]
fn to_lowercase(s: &str) -> (r: String)
    ensures
        r@ == lowercase_of(s@),
{
    s.to_lowercase()
}

/// The uppercase form of a text under Unicode case mapping.
pub uninterp spec fn uppercase_of(s: Seq<char>) -> Seq<char>;

/// Calls `str::to_uppercase`, which std documents as the Unicode uppercase mapping; the
/// contract names that mapping.
#[verifier::external_body]
pub(crate) fn to_uppercase(s: &str) -> (r: String)
    ensures
        r@ == uppercase_of(s@),
{
    s.to_uppercase()
}

/// A name as the bot compares names: without surrounding whitespace, in lowercase.
pub fn normalized_name(name: &str) -> (r: String)
    ensures
        r@ == lowercase_of(trim_of(name@)),
{
    to_lowercase(trim(name))
}

} // verus!
