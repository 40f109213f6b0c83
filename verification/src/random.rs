//! A wyrand-style pseudo-random generator with 64 bits of state.
//!
//! Each step adds a fixed odd constant to the state, then multiplies the new
//! state with a xor-scrambled copy of itself in 128 bits and folds the two
//! halves of the product together.  The state is carried in an explicit
//! instance rather than in shared global storage, so every unit of work can
//! own a generator of its own and remain reproducible.

use vstd::prelude::*;

verus! {

/// The additive constant of the state advance.
pub const WY_INCREMENT: u64 = 0xa0761d6478bd642f;

/// The constant xored into the multiplicand.
pub const WY_SCRAMBLE: u64 = 0xe7037ed1a0b428db;

pub struct Wyrand {
    state: u64,
}

impl View for Wyrand {
    /// A generator is modelled by its current state word.
    type V = u64;

    closed spec fn view(&self) -> u64 {
        self.state
    }
}

/// The state advance: the fixed increment is added modulo `2^64`.
pub open spec fn wy_advance(state: u64) -> u64 {
    state.wrapping_add(WY_INCREMENT)
}

/// The output mix of an advanced state: the 128-bit product of the state
/// with its scrambled copy, folded by xoring the high half into the low
/// half.
pub open spec fn wy_mix(state: u64) -> u64 {
    let product = ((state as u128) * ((state ^ WY_SCRAMBLE) as u128)) as u128;
    ((product >> 64) as u64) ^ (product as u64)
}

impl Wyrand {
    /// A generator starting from the given state word.
    pub fn new(state: u64) -> (rng: Wyrand)
        ensures
            rng@ == state,
    {
        Wyrand { state }
    }

    /// Draw one 64-bit word: the state advances by the fixed increment and
    /// the result is the output mix of the new state.
    pub fn next_u64(&mut self) -> (r: u64)
        ensures
            final(self)@ == wy_advance(old(self)@),
            r == wy_mix(wy_advance(old(self)@)),
    {
        self.state = self.state.wrapping_add(WY_INCREMENT);
        let s: u64 = self.state;
        proof {
            assert((s as u128) * ((s ^ WY_SCRAMBLE) as u128) <= 0xFFFFFFFFFFFFFFFFu128
                * 0xFFFFFFFFFFFFFFFFu128) by (nonlinear_arith)
                requires
                    s as u128 <= 0xFFFFFFFFFFFFFFFFu128,
                    (s ^ WY_SCRAMBLE) as u128 <= 0xFFFFFFFFFFFFFFFFu128,
            ;
        }
        let product: u128 = (s as u128) * ((s ^ WY_SCRAMBLE) as u128);
        let high: u64 = #[verifier::truncate] ((product >> 64) as u64);
        let low: u64 = #[verifier::truncate] (product as u64);
        high ^ low
    }

    /// The top 52 bits of one draw: the numerator of a uniform sample in the
    /// unit interval, whose value is `r / 2^52`.  The caller performs that
    /// final division in its own floating-point type.
    pub fn unit_bits(&mut self) -> (r: u64)
        ensures
            final(self)@ == wy_advance(old(self)@),
            r == wy_mix(wy_advance(old(self)@)) >> 12,
            r < 0x10000000000000,
    {
        let word = self.next_u64();
        proof {
            assert(word >> 12 < 0x10000000000000) by (bit_vector);
        }
        word >> 12
    }
}

} // verus!
