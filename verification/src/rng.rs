//! Randomness boundary.
//!
//! All randomness the engine uses — free-cell picks, trail-length deviation,
//! symbol choice — flows through one bounded draw on the caller's
//! thread-local generator. Nothing is assumed of the distribution; only that
//! a draw lands inside its half-open range.

use vstd::prelude::*;
use rand::Rng;

verus! {

/// The thread-local random number generator of the `rand` crate, carried
/// opaquely through the engine.
#[verifier::external_type_specification]
#[verifier::external_body]
pub struct ExThreadRng(rand::rngs::ThreadRng);

/// Relies on rand::Rng::gen_range: a draw from the half-open range
/// `low..high` lies in that range; the call panics only on an empty range,
/// which the precondition rules out.
#[verifier::external_body]
pub(crate) fn rand_below(rng: &mut rand::rngs::ThreadRng, bound: u16) -> (r: u16)
    requires
        bound > 0,
    ensures
        r < bound,
{
    rng.gen_range(0..bound)
}

/// Draws a display symbol the way the rain picks them: one of two symbol
/// ranges (katakana, decimal digits) chosen at random, then a uniform pick
/// inside the chosen range.
pub fn random_symbol(rng: &mut rand::rngs::ThreadRng) -> (code: u32)
    ensures
        crate::glyph::is_rain_symbol(code),
{
    let range_pick = rand_below(rng, 2);
    if range_pick == 0 {
        let offset = rand_below(rng, 96);
        0x30A0 + offset as u32
    } else {
        let digit = rand_below(rng, 10);
        0x30 + digit as u32
    }
}

} // verus!
