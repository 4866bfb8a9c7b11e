//! The random source of a battle.
//!
//! Every roll is drawn from a `rand::rngs::StdRng` that the caller hands
//! in, so a battle can be replayed from a seed. The functions here are the
//! only places that touch the generator; Verus takes their contracts on
//! trust.

use rand::rngs::StdRng;
use rand::Rng;
use vstd::prelude::*;

verus! {

/// `rand::rngs::StdRng`, carried through the library as an opaque value.
#[verifier::external_type_specification]
#[verifier::external_body]
pub struct ExStdRng(StdRng);

/// Calls `Rng::gen_range(0..100)`: a value of the half-open range, so one
/// below 100. Which one is not stated.
#[verifier::external_body]
pub(crate) fn roll_percent(random: &mut StdRng) -> (roll: u8)
    ensures
        roll < 100,
{
    random.gen_range(0..100)
}

/// Calls `Rng::gen_ratio(chance, 100)`. The generator documents that the
/// result is `false` for a numerator of zero and `true` when numerator and
/// denominator are equal; nothing else is stated. It panics on a numerator
/// above the denominator, which `requires` rules out.
#[verifier::external_body]
pub(crate) fn roll_chance(random: &mut StdRng, chance: u8) -> (hit: bool)
    requires
        chance <= 100,
    ensures
        chance == 0 ==> !hit,
        chance == 100 ==> hit,
{
    random.gen_ratio(chance as u32, 100)
}

/// Calls `Rng::gen::<u16>()`: any 16-bit value.
#[verifier::external_body]
pub(crate) fn roll_tiebreak(random: &mut StdRng) -> (value: u16) {
    random.gen()
}

/// Calls `Rng::gen_range(0..bound)`: a value below `bound`. The generator
/// panics on an empty range, which `requires` rules out.
#[verifier::external_body]
pub(crate) fn roll_index(random: &mut StdRng, bound: usize) -> (index: usize)
    requires
        bound > 0,
    ensures
        index < bound,
{
    random.gen_range(0..bound)
}

} // verus!
