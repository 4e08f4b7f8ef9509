//! The simulation's random stream: a `rand::rngs::StdRng` owned by the
//! caller and passed explicitly, so that runs can be seeded deterministically.

use vstd::prelude::*;

verus! {

/// `rand::rngs::StdRng`, declared so that a random stream can be held and
/// passed through the simulation's own functions.
#[verifier::external_type_specification]
#[verifier::external_body]
pub struct ExStdRng(rand::rngs::StdRng);

/// Relies on `rand::Rng::gen_range` over `lo..hi`: a sample uniformly
/// distributed in `[lo, hi)`. It panics on an empty range, which the
/// precondition rules out. Nothing more is promised of the value drawn.
#[verifier::external_body]
pub(crate) fn sample_range(rng: &mut rand::rngs::StdRng, lo: i64, hi: i64) -> (r: i64)
    requires
        lo < hi,
    ensures
        lo <= r < hi,
{
    rand::Rng::gen_range(rng, lo..hi)
}

} // verus!
