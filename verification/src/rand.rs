//! A minimal linear congruential generator with 64 bits of state.
//!
//! Each step multiplies the state by a fixed constant and adds a small odd
//! offset, modulo `2^64`; a draw exposes the low 16 bits of the new state.
//! It is a simpler, lower-quality companion of the PCG generator, kept for
//! callers that only need a coarse uniform sample.

use vstd::prelude::*;

verus! {

/// The multiplier of the congruential step.
pub const LCG_MULTIPLIER: u64 = 25214903917;

/// The additive offset of the congruential step.
pub const LCG_INCREMENT: u64 = 11;

pub struct RandomGenerator {
    seed: u64,
}

impl View for RandomGenerator {
    /// A generator is modelled by its current seed word.
    type V = u64;

    closed spec fn view(&self) -> u64 {
        self.seed
    }
}

/// One congruential step of the seed, modulo `2^64`.
pub open spec fn lcg_advance(seed: u64) -> u64 {
    seed.wrapping_mul(LCG_MULTIPLIER).wrapping_add(LCG_INCREMENT)
}

impl RandomGenerator {
    /// A generator starting from the given seed word.
    pub fn new(seed: u64) -> (rng: RandomGenerator)
        ensures
            rng@ == seed,
    {
        RandomGenerator { seed }
    }

    /// Advance the seed one congruential step and return its low 16 bits:
    /// the numerator of a uniform sample in the closed unit interval, whose
    /// value is `r / 65535`.  The caller performs that final division in its
    /// own floating-point type.
    pub fn rand_bits(&mut self) -> (r: u16)
        ensures
            final(self)@ == lcg_advance(old(self)@),
            r == lcg_advance(old(self)@) & 0xFFFF,
    {
        self.seed = self.seed.wrapping_mul(LCG_MULTIPLIER).wrapping_add(LCG_INCREMENT);
        let advanced: u64 = self.seed;
        let low: u16 = #[verifier::truncate] ((advanced & 0xFFFF) as u16);
        proof {
            assert((advanced & 0xFFFF) as u16 == advanced & 0xFFFF) by (bit_vector);
        }
        low
    }
}

} // verus!
