//! Deterministic per-pixel random streams.
//!
//! The render must be bit-identical for fixed inputs regardless of how many
//! workers consume the pixel queue, so no process-global generator may be
//! shared between pixels. Each sample of each pixel instead gets its own
//! stream, derived from `(pixel_index, sample_index)` alone. The generator
//! is a SplitMix-style counter generator: the state advances by a fixed odd
//! increment and each output is a finalizing mix of the state. Every ensures
//! clause below pins the produced value exactly, so the whole stream is a
//! function of the two indices and of nothing else — in particular not of
//! scheduling.

use vstd::prelude::*;

verus! {

/// The odd state increment of the generator (the SplitMix golden-ratio
/// constant).
pub const GOLDEN_GAMMA: u64 = 0x9E37_79B9_7F4A_7C15;

/// First multiplier of the finalizing mix.
pub const MIX_MULTIPLIER_1: u64 = 0xBF58_476D_1CE4_E5B9;

/// Second multiplier of the finalizing mix.
pub const MIX_MULTIPLIER_2: u64 = 0x94D0_49BB_1331_11EB;

/// The SplitMix finalizing mix: two xor-shift-multiply rounds and a final
/// xor-shift.
pub open spec fn spec_mix64(z: u64) -> u64 {
    let a = vstd::wrapping::u64_specs::wrapping_mul(z ^ (z >> 30), MIX_MULTIPLIER_1);
    let b = vstd::wrapping::u64_specs::wrapping_mul(a ^ (a >> 27), MIX_MULTIPLIER_2);
    b ^ (b >> 31)
}

/// The state a stream for `(pixel_index, sample_index)` starts from.
pub open spec fn spec_stream_seed(pixel_index: u64, sample_index: u64) -> u64 {
    spec_mix64(
        vstd::wrapping::u64_specs::wrapping_add(
            vstd::wrapping::u64_specs::wrapping_mul(pixel_index, GOLDEN_GAMMA),
            spec_mix64(sample_index),
        ),
    )
}

/// Applies the finalizing mix.
pub fn mix64(z: u64) -> (r: u64)
    ensures
        r == spec_mix64(z),
{
    let a = (z ^ (z >> 30)).wrapping_mul(MIX_MULTIPLIER_1);
    let b = (a ^ (a >> 27)).wrapping_mul(MIX_MULTIPLIER_2);
    b ^ (b >> 31)
}

/// Modular inverse of the first mix multiplier.
pub const MIX_MULTIPLIER_1_INV: u64 = 0x96DE_1B17_3F11_9089;

/// Modular inverse of the second mix multiplier.
pub const MIX_MULTIPLIER_2_INV: u64 = 0x319_642B_2D24_D8EC3;

/// The finalizing mix is injective: distinct states produce distinct
/// outputs, so the mix wastes none of the state space. Each of its three
/// rounds is inverted: an xor-shift by its own xor-shifts, a multiplication
/// by the multiplier's modular inverse.
pub proof fn lemma_mix64_injective(a: u64, b: u64)
    requires
        spec_mix64(a) == spec_mix64(b),
    ensures
        a == b,
{
    let a1 = a ^ (a >> 30);
    let b1 = b ^ (b >> 30);
    let a2 = vstd::wrapping::u64_specs::wrapping_mul(a1, MIX_MULTIPLIER_1);
    let b2 = vstd::wrapping::u64_specs::wrapping_mul(b1, MIX_MULTIPLIER_1);
    let a3 = a2 ^ (a2 >> 27);
    let b3 = b2 ^ (b2 >> 27);
    let a4 = vstd::wrapping::u64_specs::wrapping_mul(a3, MIX_MULTIPLIER_2);
    let b4 = vstd::wrapping::u64_specs::wrapping_mul(b3, MIX_MULTIPLIER_2);
    assert(spec_mix64(a) == a4 ^ (a4 >> 31));
    assert(spec_mix64(b) == b4 ^ (b4 >> 31));
    assert(a4 ^ (a4 >> 31) == b4 ^ (b4 >> 31) ==> a4 == b4) by (bit_vector);
    assert(a2 == ((a1 * MIX_MULTIPLIER_1) % 0x1_0000_0000_0000_0000) as u64);
    assert(b2 == ((b1 * MIX_MULTIPLIER_1) % 0x1_0000_0000_0000_0000) as u64);
    assert(a4 == ((a3 * MIX_MULTIPLIER_2) % 0x1_0000_0000_0000_0000) as u64);
    assert(b4 == ((b3 * MIX_MULTIPLIER_2) % 0x1_0000_0000_0000_0000) as u64);
    assert(((a4 * MIX_MULTIPLIER_2_INV) % 0x1_0000_0000_0000_0000) as u64 == a3) by (bit_vector)
        requires
            a4 == ((a3 * MIX_MULTIPLIER_2) % 0x1_0000_0000_0000_0000) as u64,
    ;
    assert(((b4 * MIX_MULTIPLIER_2_INV) % 0x1_0000_0000_0000_0000) as u64 == b3) by (bit_vector)
        requires
            b4 == ((b3 * MIX_MULTIPLIER_2) % 0x1_0000_0000_0000_0000) as u64,
    ;
    assert(a3 == b3);
    assert(a2 ^ (a2 >> 27) == b2 ^ (b2 >> 27) ==> a2 == b2) by (bit_vector);
    assert(((a2 * MIX_MULTIPLIER_1_INV) % 0x1_0000_0000_0000_0000) as u64 == a1) by (bit_vector)
        requires
            a2 == ((a1 * MIX_MULTIPLIER_1) % 0x1_0000_0000_0000_0000) as u64,
    ;
    assert(((b2 * MIX_MULTIPLIER_1_INV) % 0x1_0000_0000_0000_0000) as u64 == b1) by (bit_vector)
        requires
            b2 == ((b1 * MIX_MULTIPLIER_1) % 0x1_0000_0000_0000_0000) as u64,
    ;
    assert(a1 == b1);
    assert(a ^ (a >> 30) == b ^ (b >> 30) ==> a == b) by (bit_vector);
}

/// A deterministic uniform generator owned by a single pixel sample.
pub struct Rng {
    state: u64,
}

impl Rng {
    /// The current state.
    pub closed spec fn spec_state(self) -> u64 {
        self.state
    }

    /// The stream for one sample of one pixel. Two calls with the same
    /// indices yield generators that produce identical output forever.
    pub fn for_sample(pixel_index: u64, sample_index: u64) -> (r: Rng)
        ensures
            r.spec_state() == spec_stream_seed(pixel_index, sample_index),
    {
        Rng { state: mix64(pixel_index.wrapping_mul(GOLDEN_GAMMA).wrapping_add(mix64(sample_index))) }
    }

    /// Draws the next 64 uniform bits.
    pub fn next_u64(&mut self) -> (r: u64)
        ensures
            final(self).spec_state() == vstd::wrapping::u64_specs::wrapping_add(
                old(self).spec_state(),
                GOLDEN_GAMMA,
            ),
            r == spec_mix64(final(self).spec_state()),
    {
        self.state = self.state.wrapping_add(GOLDEN_GAMMA);
        mix64(self.state)
    }

    /// Draws 24 uniform bits, the mantissa width a single-precision unit
    /// draw needs: the embedder divides the result by 2^24 to obtain a float
    /// uniform in [0, 1).
    pub fn next_unit_bits(&mut self) -> (r: u32)
        ensures
            final(self).spec_state() == vstd::wrapping::u64_specs::wrapping_add(
                old(self).spec_state(),
                GOLDEN_GAMMA,
            ),
            r == spec_mix64(final(self).spec_state()) >> 40,
            r < 0x100_0000,
    {
        let word = self.next_u64();
        let r = (word >> 40) as u32;
        proof {
            let w = spec_mix64(self.state);
            assert((w >> 40) < 0x100_0000 && (w >> 40) as u32 == w >> 40) by (bit_vector);
        }
        r
    }

    /// Draws an index below `bound` by reducing a 64-bit draw; each pixel
    /// uses it to pick an emitter uniformly.
    pub fn next_below(&mut self, bound: u64) -> (r: u64)
        requires
            bound > 0,
        ensures
            final(self).spec_state() == vstd::wrapping::u64_specs::wrapping_add(
                old(self).spec_state(),
                GOLDEN_GAMMA,
            ),
            r == spec_mix64(final(self).spec_state()) % bound,
            r < bound,
    {
        let word = self.next_u64();
        word % bound
    }
}

} // verus!
