//! Team names and their slugs.
use vstd::prelude::*;
use crate::slug::{lowercase, lowercase_of, slug_from_lowered, slug_ok, validate_slug as slug_valid};

verus! {

/// The slug of a team name: lower-cased, characters outside `a`-`z`, `0`-`9`
/// and space dropped, spaces turned to `-`.
pub open spec fn team_slug_spec(text: Seq<char>, suffix: Option<u16>) -> Seq<char> {
    crate::slug::slug_from_lowered_spec(lowercase_of(text), false, suffix)
}

/// Whether `slug` may name a team: one or more of `a`-`z`, `0`-`9` and `-`.
pub fn validate_slug(slug: &str) -> (r: bool)
    ensures
        r == slug_ok(slug@),
{
    slug_valid(slug)
}

/// Turns a team name into a slug; `suffix` is a number (drawn at random by
/// the caller, below 10000) that tells apart slugs of equal names.
pub fn into_slug(text: &str, suffix: Option<u16>) -> (r: String)
    ensures
        r@ == team_slug_spec(text@, suffix),
{
    let lower = lowercase(text);
    slug_from_lowered(lower.as_str(), false, suffix)
}

} // verus!
