//! Xoroshiro128++ as Minecraft's `XoroshiroRandomSource` seeds and steps it.

use vstd::prelude::*;

verus! {

/// `0x9E3779B97F4A7C15`, the 64-bit golden ratio.
pub const GOLDEN_RATIO_64: u64 = 0x9E37_79B9_7F4A_7C15;

/// `0x6A09E667F3BCC909`, the 64-bit silver ratio.
pub const SILVER_RATIO_64: u64 = 0x6A09_E667_F3BC_C909;

/// First multiplier of Stafford's mix 13.
pub const STAFFORD_MIX_1: u64 = 0xBF58_476D_1CE4_E5B9;

/// Second multiplier of Stafford's mix 13.
pub const STAFFORD_MIX_2: u64 = 0x94D0_49BB_1331_11EB;

/// Multiplication modulo 2^64.
pub open spec fn mul64(x: u64, y: u64) -> u64 {
    ((x as nat * y as nat) % 0x1_0000_0000_0000_0000) as u64
}

/// Addition modulo 2^64.
pub open spec fn add64(x: u64, y: u64) -> u64 {
    ((x as nat + y as nat) % 0x1_0000_0000_0000_0000) as u64
}

/// Left rotation of a 64-bit word by `k` bits, `0 < k < 64`.
pub open spec fn rotl(x: u64, k: u64) -> u64 {
    (x << k) | (x >> (64 - k) as u64)
}

/// Stafford's variant 13 of the SplitMix64 finaliser.
pub open spec fn stafford13(value: u64) -> u64 {
    let a = mul64(value ^ (value >> 30u64), STAFFORD_MIX_1);
    let b = mul64(a ^ (a >> 27u64), STAFFORD_MIX_2);
    b ^ (b >> 31u64)
}

/// The 128-bit state that `setSeed(seed)` installs (`RandomSupport.upgradeSeedTo128bit`,
/// with the all-zero state replaced).
pub open spec fn seeded_state(seed: i64) -> (u64, u64) {
    let low = (seed as u64) ^ SILVER_RATIO_64;
    let high = add64(low, GOLDEN_RATIO_64);
    let lo = stafford13(low);
    let hi = stafford13(high);
    if lo | hi == 0 {
        (GOLDEN_RATIO_64, SILVER_RATIO_64)
    } else {
        (lo, hi)
    }
}

/// The 64-bit output of the state `(lo, hi)`: `rotl(lo + hi, 17) + lo`.
pub open spec fn output(state: (u64, u64)) -> u64 {
    add64(rotl(add64(state.0, state.1), 17), state.0)
}

/// The state that follows `(lo, hi)`.
pub open spec fn advance(state: (u64, u64)) -> (u64, u64) {
    let h = state.1 ^ state.0;
    (rotl(state.0, 49) ^ h ^ (h << 21u64), rotl(h, 28))
}

/// Xoroshiro128++ as Minecraft seeds it.
pub struct Xoroshiro128PlusPlus {
    seed_lo: u64,
    seed_hi: u64,
}

impl Xoroshiro128PlusPlus {
    /// The current state `(lo, hi)`.
    pub closed spec fn state(&self) -> (u64, u64) {
        (self.seed_lo, self.seed_hi)
    }

    /// A generator seeded with `seed`.
    pub fn new(seed: i64) -> (random: Self)
        ensures
            random.state() == seeded_state(seed),
    {
        let mut random = Self { seed_lo: 0, seed_hi: 0 };
        random.set_seed(seed);
        random
    }

    /// Reseeds the generator as `setSeed(seed)` does.
    pub fn set_seed(&mut self, seed: i64)
        ensures
            final(self).state() == seeded_state(seed),
    {
        let low_bits = seed as u64 ^ SILVER_RATIO_64;
        let high_bits = low_bits.wrapping_add(GOLDEN_RATIO_64);
        proof {
            lemma_add64(low_bits, GOLDEN_RATIO_64);
        }
        self.seed_lo = mix_stafford_13(low_bits);
        self.seed_hi = mix_stafford_13(high_bits);
        if self.seed_lo | self.seed_hi == 0 {
            self.seed_lo = GOLDEN_RATIO_64;
            self.seed_hi = SILVER_RATIO_64;
        }
    }

    /// Returns the output of the current state and advances the state.
    pub fn next_long(&mut self) -> (value: u64)
        ensures
            value == output(old(self).state()),
            final(self).state() == advance(old(self).state()),
    {
        let seed_lo = self.seed_lo;
        let mut seed_hi = self.seed_hi;
        let sum = seed_lo.wrapping_add(seed_hi);
        let rotated = rotate_left(sum, 17);
        let result = rotated.wrapping_add(seed_lo);
        proof {
            lemma_add64(seed_lo, seed_hi);
            lemma_add64(rotated, seed_lo);
        }
        seed_hi = seed_hi ^ seed_lo;
        self.seed_lo = rotate_left(seed_lo, 49) ^ seed_hi ^ (seed_hi << 21);
        self.seed_hi = rotate_left(seed_hi, 28);
        result
    }
}

/// Left rotation by `k` bits, `0 < k < 64`.
fn rotate_left(x: u64, k: u64) -> (r: u64)
    requires
        0 < k < 64,
    ensures
        r == rotl(x, k),
{
    (x << k) | (x >> (64 - k))
}

/// Stafford's variant 13 of the SplitMix64 finaliser.
pub fn mix_stafford_13(value: u64) -> (mixed: u64)
    ensures
        mixed == stafford13(value),
{
    let a = (value ^ (value >> 30)).wrapping_mul(STAFFORD_MIX_1);
    let b = (a ^ (a >> 27)).wrapping_mul(STAFFORD_MIX_2);
    b ^ (b >> 31)
}

/// `wrapping_add` is addition modulo 2^64.
proof fn lemma_add64(x: u64, y: u64)
    ensures
        x.wrapping_add(y) == add64(x, y),
{
    if x as nat + y as nat > u64::MAX {
        vstd::arithmetic::div_mod::lemma_mod_sub_multiples_vanish(
            (x as nat + y as nat) as int,
            0x1_0000_0000_0000_0000,
        );
        vstd::arithmetic::div_mod::lemma_small_mod(
            (x as nat + y as nat - 0x1_0000_0000_0000_0000) as nat,
            0x1_0000_0000_0000_0000,
        );
    } else {
        vstd::arithmetic::div_mod::lemma_small_mod(
            (x as nat + y as nat) as nat,
            0x1_0000_0000_0000_0000,
        );
    }
}

/// Seeding never leaves the generator in the all-zero state, from which
/// xoroshiro would only ever produce zeros.
pub proof fn law_seeded_state_nonzero(seed: i64)
    ensures
        seeded_state(seed) != (0u64, 0u64),
{
    let low = (seed as u64) ^ SILVER_RATIO_64;
    let high = add64(low, GOLDEN_RATIO_64);
    let lo = stafford13(low);
    let hi = stafford13(high);
    if lo | hi != 0 {
        assert(lo | hi != 0 ==> (lo != 0 || hi != 0)) by (bit_vector);
    }
}

/// Stepping never reaches the all-zero state from another state: the step
/// is invertible and fixes zero, so a seeded generator stays non-zero after
/// any number of `next_long` calls.
pub proof fn law_step_keeps_state_nonzero(state: (u64, u64))
    requires
        state != (0u64, 0u64),
    ensures
        advance(state) != (0u64, 0u64),
{
    let lo = state.0;
    let hi = state.1;
    let h = hi ^ lo;
    assert((h << 28u64) | (h >> 36u64) == 0 ==> h == 0) by (bit_vector);
    assert(h == 0 ==> hi == lo) by (bit_vector)
        requires
            h == hi ^ lo,
    ;
    assert(h == 0 ==> ((lo << 49u64) | (lo >> 15u64)) ^ h ^ (h << 21u64) == (lo << 49u64) | (lo
        >> 15u64)) by (bit_vector);
    assert((lo << 49u64) | (lo >> 15u64) == 0 ==> lo == 0) by (bit_vector);
}

} // verus!
