//! A PCG-family pseudo-random generator with 64 bits of state and 32-bit
//! output.
//!
//! The generator advances its accumulator by a linear congruential step
//! (a fixed odd multiplier plus a stream-specific odd increment) and derives
//! each output word from the *old* accumulator by an xorshift followed by a
//! data-dependent rotation.  Every draw is a pure function of the current
//! `(state, inc)` pair, so two generators seeded alike yield bit-identical
//! streams; [`lemma_identical_seeds_identical_streams`] states that law.

use vstd::prelude::*;

verus! {

/// The fixed odd multiplier of the linear congruential state advance.
pub const PCG_MULTIPLIER: u64 = 6364136223846793005;

pub struct PCG32State {
    state: u64,
    inc: u64,
}

impl View for PCG32State {
    /// A generator is modelled by its accumulator and its increment,
    /// in that order.
    type V = (u64, u64);

    closed spec fn view(&self) -> (u64, u64) {
        (self.state, self.inc)
    }
}

/// The linear congruential step: the accumulator is multiplied by
/// [`PCG_MULTIPLIER`] and the increment is added, both modulo `2^64`.
pub open spec fn pcg_advance(state: u64, inc: u64) -> u64 {
    state.wrapping_mul(PCG_MULTIPLIER).wrapping_add(inc)
}

/// The output permutation, applied to the accumulator value from *before*
/// the advance: an xorshift compresses the high bits, then the word is
/// rotated right by the top five bits of the old accumulator.
pub open spec fn pcg_output(state: u64) -> u32 {
    let xorshifted = (((state >> 18) ^ state) >> 27) as u32;
    let rot = (state >> 59) as u32;
    (xorshifted >> rot) | (xorshifted << (0u32.wrapping_sub(rot) & 31))
}

/// The `(state, inc)` pair that seeding with `(init_state, init_seq)`
/// establishes: a zeroed accumulator is advanced once, the seed is added,
/// and it is advanced again, under the odd increment derived from
/// `init_seq`.
pub open spec fn pcg_seeded(init_state: u64, init_seq: u64) -> (u64, u64) {
    let inc = (init_seq << 1) | 1;
    let after_first = pcg_advance(0, inc);
    let with_seed = after_first.wrapping_add(init_state);
    (pcg_advance(with_seed, inc), inc)
}

/// The `(state, inc)` pair after seeding with `(init_state, init_seq)` and
/// then drawing `n` words.
pub open spec fn pcg_state_at(init_state: u64, init_seq: u64, n: nat) -> (u64, u64)
    decreases n,
{
    if n == 0 {
        pcg_seeded(init_state, init_seq)
    } else {
        let prev = pcg_state_at(init_state, init_seq, (n - 1) as nat);
        (pcg_advance(prev.0, prev.1), prev.1)
    }
}

/// The `n`-th word (counting from zero) drawn after seeding with
/// `(init_state, init_seq)`.
pub open spec fn pcg_draw_at(init_state: u64, init_seq: u64, n: nat) -> u32 {
    pcg_output(pcg_state_at(init_state, init_seq, n).0)
}

impl PCG32State {
    /// A generator freshly seeded with `(init_state, init_seq)`.
    pub fn new(init_state: u64, init_seq: u64) -> (rng: PCG32State)
        ensures
            rng@ == pcg_seeded(init_state, init_seq),
    {
        let mut rng = PCG32State { state: 0, inc: 0 };
        rng.seed(init_state, init_seq);
        rng
    }

    /// Re-seed this generator with `(init_state, init_seq)`, discarding its
    /// previous state.  The two advances around the seed addition avoid weak
    /// early outputs.
    pub fn seed(&mut self, init_state: u64, init_seq: u64)
        ensures
            final(self)@ == pcg_seeded(init_state, init_seq),
    {
        self.state = 0;
        self.inc = (init_seq << 1) | 1;
        self.u32();
        self.state = self.state.wrapping_add(init_state);
        self.u32();
    }

    /// Draw one 32-bit word.  The result is the output permutation of the
    /// accumulator before the call, and the accumulator takes one linear
    /// congruential step; the increment never changes.
    pub fn u32(&mut self) -> (r: u32)
        ensures
            final(self)@ == (pcg_advance(old(self)@.0, old(self)@.1), old(self)@.1),
            r == pcg_output(old(self)@.0),
    {
        let old_state = self.state;
        self.state = old_state.wrapping_mul(PCG_MULTIPLIER).wrapping_add(self.inc);
        let xorshifted: u32 = #[verifier::truncate] ((((old_state >> 18) ^ old_state) >> 27) as u32);
        let rot: u32 = (old_state >> 59) as u32;
        proof {
            assert(((old_state >> 59) as u32) < 32) by (bit_vector);
            assert(0u32.wrapping_sub(rot) & 31 < 32) by (bit_vector);
        }
        (xorshifted >> rot) | (xorshifted << (0u32.wrapping_sub(rot) & 31))
    }

    /// Draw a word in `[lo, hi)` by reducing one draw modulo the width.
    /// For widths that are not a power of two the low values are slightly
    /// favoured; that bias is part of the generator's documented behaviour
    /// and is kept as it is.
    pub fn u32_between(&mut self, lo: u32, hi: u32) -> (r: u32)
        requires
            lo < hi,
        ensures
            final(self)@ == (pcg_advance(old(self)@.0, old(self)@.1), old(self)@.1),
            r == lo + (pcg_output(old(self)@.0) as int) % (hi - lo),
            lo <= r < hi,
    {
        lo + self.u32() % (hi - lo)
    }

    /// The top 24 bits of one draw: the numerator of a uniform sample in the
    /// unit interval, whose value is `r / 2^24`.  The caller performs that
    /// final division in its own floating-point type.
    pub fn f32_bits(&mut self) -> (r: u32)
        ensures
            final(self)@ == (pcg_advance(old(self)@.0, old(self)@.1), old(self)@.1),
            r == pcg_output(old(self)@.0) >> 8,
            r < 0x1000000,
    {
        let word = self.u32();
        proof {
            assert(word >> 8 < 0x1000000) by (bit_vector);
        }
        word >> 8
    }
}

/// Two generators seeded with identical `(state, sequence)` pairs produce
/// bit-identical output streams: the `n`-th draw is a function of the seed
/// pair alone.
pub proof fn lemma_identical_seeds_identical_streams(
    state_a: u64,
    seq_a: u64,
    state_b: u64,
    seq_b: u64,
    n: nat,
)
    requires
        state_a == state_b,
        seq_a == seq_b,
    ensures
        pcg_draw_at(state_a, seq_a, n) == pcg_draw_at(state_b, seq_b, n),
{
}

} // verus!
