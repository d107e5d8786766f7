//! Draws from the pseudorandom number generator, behind trusted wrappers.
//!
//! The simulation owns one `SmallRng` for a whole run; every verified
//! function that needs randomness takes the generator and calls one of the
//! wrappers below. Nothing is assumed of the drawn values beyond what the
//! generator's documentation promises, so every caller is verified for every
//! possible draw.

use rand::rngs::SmallRng;
use rand::Rng;
use vstd::prelude::*;

verus! {

#[verifier::external_type_specification]
#[verifier::external_body]
pub struct ExSmallRng(SmallRng);

/// Relies on rand::Rng::gen_range over the half-open range 0..len: the result
/// is always below len, and the range is nonempty, so the call cannot panic.
#[verifier::external_body]
pub fn draw_site(rng: &mut SmallRng, len: usize) -> (site: usize)
    requires
        len >= 1,
    ensures
        site < len,
{
    rng.gen_range(0..len)
}

/// Relies on rand::Rng::gen::<u32>: one uniformly distributed 32-bit draw;
/// nothing is promised of its value.
#[verifier::external_body]
pub fn draw_u32(rng: &mut SmallRng) -> u32 {
    rng.gen::<u32>()
}

} // verus!
