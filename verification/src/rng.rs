//! Randomness for the shatter impulses, drawn through the `rand` crate.

use vstd::prelude::*;

verus! {

/// The small fast generator the shatter rule draws its impulses from.
#[verifier::external_type_specification]
#[verifier::external_body]
pub struct ExSmallRng(rand::rngs::SmallRng);

/// Relies on rand's Rng::gen_range: returns a sample from the given
/// inclusive range, which is not empty. Nothing more is assumed of the
/// value drawn.
#[verifier::external_body]
pub fn rng_unit_milli(rng: &mut rand::rngs::SmallRng) -> (r: i64)
    ensures
        -1000 <= r <= 1000,
{
    rand::Rng::gen_range(rng, -1000i64..=1000i64)
}

} // verus!
