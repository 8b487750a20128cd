//! Minecraft's `WorldgenRandom` over Xoroshiro128++, and the loot seeds that
//! chunk decoration hands to randomizable containers.

use vstd::prelude::*;

use crate::catalog::{ContainerSeedShortcut, DecorationSeedSpec};
use crate::error::{is_usage_error, Error};
use crate::xoroshiro::{advance, output, seeded_state, Xoroshiro128PlusPlus};
use vstd::wrapping::{i32_specs, i64_specs};

verus! {

/// State of the decoration random: a Xoroshiro128++ state.
pub type RandomState = (u64, u64);

/// `next(bits)`: the top `bits` bits of the next output, and the state after it.
pub open spec fn next_bits_spec(state: RandomState, bits: u32) -> (RandomState, i32) {
    (advance(state), (output(state) >> (64 - bits) as u64) as i32)
}

/// `nextLong()`, composed of two `next(32)` draws: `(i << 32) + j`.
pub open spec fn next_long_spec(state: RandomState) -> (RandomState, i64) {
    let (s1, i) = next_bits_spec(state, 32);
    let (s2, j) = next_bits_spec(s1, 32);
    (s2, i64_specs::wrapping_add((i as int * 0x1_0000_0000) as i64, j as i64))
}

/// Whether a 31-bit draw is kept by `nextInt(bound)`.
pub open spec fn accepts(bits: i32, bound: i32) -> bool {
    bits - bits % bound + (bound - 1) <= i32::MAX
}

/// Upper bound on consecutive rejections that `next_int` follows.
pub open spec fn rejection_fuel() -> nat {
    0xFFFF_FFFF_FFFF_FFFF
}

/// The rejection loop of `nextInt(bound)`: the first accepted draw, or the
/// last one drawn when `fuel` runs out.
pub open spec fn rejection_draw(state: RandomState, bound: i32, fuel: nat) -> (RandomState, i32)
    decreases fuel,
{
    let (next, bits) = next_bits_spec(state, 31);
    if accepts(bits, bound) || fuel == 0 {
        (next, bits % bound)
    } else {
        rejection_draw(next, bound, (fuel - 1) as nat)
    }
}

/// `nextInt(bound)`.
#[verifier::opaque]
pub open spec fn next_int_spec(state: RandomState, bound: i32) -> (RandomState, i32) {
    if bound & (-bound) as i32 == bound {
        let (next, bits) = next_bits_spec(state, 31);
        (next, ((bound as int * bits as int) / 0x8000_0000) as i32)
    } else {
        rejection_draw(state, bound, rejection_fuel())
    }
}

/// The decoration seed of the chunk whose minimum corner is `(min_x, min_z)`:
/// seed with the world seed, draw `a = nextLong() | 1` and `b = nextLong() | 1`,
/// then `min_x * a + min_z * b ^ world_seed`.
pub open spec fn decoration_seed_spec(world_seed: i64, min_x: i32, min_z: i32) -> i64 {
    let (s1, a) = next_long_spec(seeded_state(world_seed));
    let (s2, b) = next_long_spec(s1);
    let a1 = a | 1;
    let b1 = b | 1;
    i64_specs::wrapping_add(
        i64_specs::wrapping_mul(min_x as i64, a1),
        i64_specs::wrapping_mul(min_z as i64, b1),
    ) ^ world_seed
}

/// The feature seed: `decoration_seed + index + 10000 * step`.
pub open spec fn feature_seed_spec(decoration_seed: i64, index: i32, step: i32) -> i64 {
    i64_specs::wrapping_add(
        i64_specs::wrapping_add(decoration_seed, index as i64),
        i32_specs::wrapping_mul(step, 10000) as i64,
    )
}

/// The state of the feature random of a structure in chunk `(chunk_x, chunk_z)`.
pub open spec fn feature_state(world_seed: i64, chunk_x: i32, chunk_z: i32, spec: DecorationSeedSpec) -> RandomState {
    seeded_state(
        feature_seed_spec(
            decoration_seed_spec(
                world_seed,
                i32_specs::wrapping_mul(chunk_x, 16),
                i32_specs::wrapping_mul(chunk_z, 16),
            ),
            spec.structure_index,
            spec.step,
        ),
    )
}

/// The value of the `n`-th (from zero) `nextLong()` from `state`.
pub open spec fn nth_long(state: RandomState, n: nat) -> i64
    decreases n,
{
    let (next, value) = next_long_spec(state);
    if n == 0 {
        value
    } else {
        nth_long(next, (n - 1) as nat)
    }
}

/// The loot seed of the container with `ordinal` in the decoration chunk, when
/// the arguments are accepted.
pub open spec fn loot_seed_spec(
    world_seed: i64,
    chunk_x: i32,
    chunk_z: i32,
    spec: DecorationSeedSpec,
    ordinal: i32,
) -> i64 {
    let effective = ordinal + spec.ordinal_offset;
    let start = feature_state(world_seed, chunk_x, chunk_z, spec);
    let state = if spec.shortcut == ContainerSeedShortcut::DesertPyramid {
        next_int_spec(start, 3).0
    } else {
        start
    };
    if effective < 0 {
        0
    } else {
        nth_long(state, effective as nat)
    }
}

/// The loot seed of the container with `ordinal`, or the message of the usage
/// error that refuses the arguments.
pub open spec fn loot_seed_outcome(
    world_seed: i64,
    chunk_x: i32,
    chunk_z: i32,
    spec: DecorationSeedSpec,
    ordinal: i32,
) -> Result<i64, Seq<char>> {
    if ordinal < 0 {
        Err("container ordinal must be non-negative"@)
    } else if spec.shortcut == ContainerSeedShortcut::Unavailable {
        Err("container seed requires exact structure placement"@)
    } else if !(i32::MIN <= ordinal + spec.ordinal_offset <= i32::MAX) {
        Err("container ordinal overflowed"@)
    } else {
        Ok(loot_seed_spec(world_seed, chunk_x, chunk_z, spec, ordinal))
    }
}

/// Minecraft's `WorldgenRandom` with a Xoroshiro128++ source, as chunk
/// decoration uses it.
pub struct DecorationRandom {
    random: Xoroshiro128PlusPlus,
}

impl DecorationRandom {
    /// The state of the underlying generator.
    pub closed spec fn state(&self) -> RandomState {
        self.random.state()
    }

    /// A generator seeded with zero.
    pub fn new() -> (r: Self)
        ensures
            r.state() == seeded_state(0),
    {
        DecorationRandom { random: Xoroshiro128PlusPlus::new(0) }
    }

    /// Reseeds the generator.
    pub fn set_seed(&mut self, seed: i64)
        ensures
            final(self).state() == seeded_state(seed),
    {
        self.random.set_seed(seed);
    }

    /// `next(bits)`.
    pub fn next_bits(&mut self, bits: u32) -> (value: i32)
        requires
            1 <= bits <= 32,
        ensures
            (final(self).state(), value) == next_bits_spec(old(self).state(), bits),
    {
        let long = self.random.next_long();
        (long >> (64 - bits)) as i32
    }

    /// `nextLong()`.
    pub fn next_long(&mut self) -> (value: i64)
        ensures
            (final(self).state(), value) == next_long_spec(old(self).state()),
    {
        let i = self.next_bits(32);
        let j = self.next_bits(32);
        ((i as i64) * 0x1_0000_0000).wrapping_add(j as i64)
    }

    /// `nextInt(bound)`.
    pub fn next_int(&mut self, bound: i32) -> (value: i32)
        requires
            bound > 0,
        ensures
            (final(self).state(), value) == next_int_spec(old(self).state(), bound),
            0 <= value < bound,
    {
        reveal(next_int_spec);
        if bound & (-bound) == bound {
            let bits = self.next_bits(31);
            proof {
                lemma_31_bits(output(old(self).state()));
                assert(0 <= bound as int * bits as int <= bound as int * 0x7FFF_FFFF)
                    by (nonlinear_arith)
                    requires
                        0 <= bits <= 0x7FFF_FFFF,
                        bound > 0,
                ;
            }
            let product = (bound as i64) * (bits as i64);
            proof {
                assert(product >= 0 ==> (product >> 31) == product / 0x8000_0000) by (bit_vector);
                assert(product / 0x8000_0000 < bound) by (nonlinear_arith)
                    requires
                        0 <= product <= bound * 0x7FFF_FFFF,
                        bound > 0,
                ;
            }
            return (product >> 31) as i32;
        }
        let ghost start = self.state();
        let mut count: u64 = 0;
        loop
            invariant
                bound > 0,
                !(bound & (-bound) as i32 == bound),
                rejection_draw(start, bound, rejection_fuel()) == rejection_draw(
                    self.state(),
                    bound,
                    (rejection_fuel() - count) as nat,
                ),
                old(self).state() == start,
            decreases rejection_fuel() - count,
        {
            let ghost before = self.state();
            let bits = self.next_bits(31);
            proof {
                lemma_31_bits(output(before));
            }
            let value = bits % bound;
            let accepted = bits - value <= i32::MAX - (bound - 1);
            proof {
                let left = (rejection_fuel() - count) as nat;
                assert(rejection_draw(before, bound, left) == (if accepts(bits, bound) || left
                    == 0 {
                    (self.state(), value)
                } else {
                    rejection_draw(self.state(), bound, (left - 1) as nat)
                }));
            }
            reveal(next_int_spec);
            if accepted || count == u64::MAX {
                return value;
            }
            count = count + 1;
        }
    }

    /// Seeds the generator for the decoration of the chunk whose minimum corner
    /// is `(min_x, min_z)` and returns the decoration seed.
    pub fn set_decoration_seed(&mut self, world_seed: i64, min_x: i32, min_z: i32) -> (seed: i64)
        ensures
            seed == decoration_seed_spec(world_seed, min_x, min_z),
            final(self).state() == seeded_state(seed),
    {
        self.set_seed(world_seed);
        let a = self.next_long() | 1;
        let b = self.next_long() | 1;
        let seed = (min_x as i64).wrapping_mul(a).wrapping_add((min_z as i64).wrapping_mul(b))
            ^ world_seed;
        self.set_seed(seed);
        seed
    }

    /// Seeds the generator for one feature of the decoration step `step`.
    pub fn set_feature_seed(&mut self, decoration_seed: i64, index: i32, step: i32)
        ensures
            final(self).state() == seeded_state(feature_seed_spec(decoration_seed, index, step)),
    {
        let scaled = step.wrapping_mul(10000);
        let seed = decoration_seed.wrapping_add(index as i64).wrapping_add(scaled as i64);
        self.set_seed(seed);
    }

    /// The feature random of a structure in chunk `(chunk_x, chunk_z)`.
    pub fn for_feature(world_seed: i64, chunk_x: i32, chunk_z: i32, spec: DecorationSeedSpec) -> (r: Self)
        ensures
            r.state() == feature_state(world_seed, chunk_x, chunk_z, spec),
    {
        let mut result = Self::new();
        let min_x = chunk_x.wrapping_mul(16);
        let min_z = chunk_z.wrapping_mul(16);
        let decoration_seed = result.set_decoration_seed(world_seed, min_x, min_z);
        result.set_feature_seed(decoration_seed, spec.structure_index, spec.step);
        result
    }
}

/// The loot table seed that decoration gives to the container with `ordinal`
/// among the randomizable containers placed in chunk `(chunk_x, chunk_z)` by
/// the structure that `spec` describes.
pub fn container_loot_seed(
    world_seed: i64,
    chunk_x: i32,
    chunk_z: i32,
    spec: DecorationSeedSpec,
    ordinal: i32,
) -> (result: Result<i64, Error>)
    ensures
        ordinal < 0 ==> is_usage_error(result, "container ordinal must be non-negative"@),
        ordinal >= 0 && spec.shortcut == ContainerSeedShortcut::Unavailable ==> is_usage_error(
            result,
            "container seed requires exact structure placement"@,
        ),
        ordinal >= 0 && spec.shortcut != ContainerSeedShortcut::Unavailable && !(i32::MIN <= ordinal
            + spec.ordinal_offset <= i32::MAX) ==> is_usage_error(
            result,
            "container ordinal overflowed"@,
        ),
        ordinal >= 0 && spec.shortcut != ContainerSeedShortcut::Unavailable && i32::MIN <= ordinal
            + spec.ordinal_offset <= i32::MAX ==> result == Ok::<i64, Error>(
            loot_seed_spec(world_seed, chunk_x, chunk_z, spec, ordinal),
        ),
        match loot_seed_outcome(world_seed, chunk_x, chunk_z, spec, ordinal) {
            Ok(seed) => result == Ok::<i64, Error>(seed),
            Err(message) => is_usage_error(result, message),
        },
{
    if ordinal < 0 {
        return Err(Error::Usage("container ordinal must be non-negative".to_owned()));
    }
    if spec.shortcut == ContainerSeedShortcut::Unavailable {
        return Err(Error::Usage("container seed requires exact structure placement".to_owned()));
    }
    let effective_ordinal = match ordinal.checked_add(spec.ordinal_offset) {
        Some(value) => value,
        None => {
            return Err(Error::Usage("container ordinal overflowed".to_owned()));
        },
    };
    let mut random = DecorationRandom::for_feature(world_seed, chunk_x, chunk_z, spec);
    if spec.shortcut == ContainerSeedShortcut::DesertPyramid {
        random.next_int(3);
    }
    let ghost start = random.state();
    let target = effective_ordinal as i64;
    let mut result: i64 = 0;
    let mut index: i64 = 0;
    while index <= target
        invariant
            target == effective_ordinal,
            0 <= index,
            index <= target + 1 || (target < 0 && index == 0),
            random.state() == states_after(start, index as nat),
            index > 0 ==> result == nth_long(start, (index - 1) as nat),
            index == 0 ==> result == 0,
        decreases target + 1 - index,
    {
        proof {
            lemma_nth_long_step(start, index as nat);
        }
        result = random.next_long();
        index = index + 1;
    }
    Ok(result)
}

/// The state after `n` calls of `nextLong()` from `state`.
pub open spec fn states_after(state: RandomState, n: nat) -> RandomState
    decreases n,
{
    if n == 0 {
        state
    } else {
        next_long_spec(states_after(state, (n - 1) as nat)).0
    }
}

/// The `n`-th long is the first long drawn after `n` longs.
proof fn lemma_nth_long_step(state: RandomState, n: nat)
    ensures
        nth_long(state, n) == next_long_spec(states_after(state, n)).1,
    decreases n,
{
    if n > 0 {
        lemma_nth_long_step(next_long_spec(state).0, (n - 1) as nat);
        lemma_states_after_shift(state, (n - 1) as nat);
    }
}

/// Drawing once and then `n` times is drawing `n + 1` times.
proof fn lemma_states_after_shift(state: RandomState, n: nat)
    ensures
        states_after(next_long_spec(state).0, n) == states_after(state, n + 1),
    decreases n,
{
    if n > 0 {
        lemma_states_after_shift(state, (n - 1) as nat);
        assert(states_after(state, n + 1) == next_long_spec(states_after(state, n)).0);
    } else {
        assert(states_after(state, 1) == next_long_spec(states_after(state, 0)).0);
    }
}

/// Thirty-one top bits of a 64-bit output are below 2^31.
proof fn lemma_31_bits(x: u64)
    ensures
        0 <= ((x >> 33u64) as i32) < 0x8000_0000,
        (x >> (64 - 31) as u64) == (x >> 33u64),
{
    assert((x >> 33u64) < 0x8000_0000) by (bit_vector);
}

/// A template ordinal offset only shifts the ordinal: the container with
/// `ordinal` under an offset takes the seed of ordinal `ordinal + offset`
/// without one.
pub proof fn law_ordinal_offset_shifts(
    world_seed: i64,
    chunk_x: i32,
    chunk_z: i32,
    spec: DecorationSeedSpec,
    ordinal: i32,
)
    requires
        i32::MIN <= ordinal + spec.ordinal_offset <= i32::MAX,
    ensures
        loot_seed_spec(world_seed, chunk_x, chunk_z, spec, ordinal) == loot_seed_spec(
            world_seed,
            chunk_x,
            chunk_z,
            DecorationSeedSpec { ordinal_offset: 0, ..spec },
            (ordinal + spec.ordinal_offset) as i32,
        ),
{
}

} // verus!
