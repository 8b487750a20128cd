//! The 48-bit linear congruential generator of `java.util.Random`.

use vstd::prelude::*;

verus! {

/// LCG multiplier.
pub const MULTIPLIER: u64 = 0x5_DEEC_E66D;

/// LCG increment.
pub const ADDEND: u64 = 0xB;

/// Mask of the 48 state bits.
pub const SEED_MASK: u64 = 0xFFFF_FFFF_FFFF;

/// 2^48, the modulus of the generator.
pub open spec fn modulus() -> int {
    0x1_0000_0000_0000
}

/// The state that `setSeed(seed)` installs.
pub open spec fn scramble(seed: i64) -> u64 {
    ((seed as u64) ^ MULTIPLIER) & SEED_MASK
}

/// One step of the generator: `(s * 0x5DEECE66D + 0xB) mod 2^48`.
pub open spec fn lcg_step(s: u64) -> u64 {
    ((s * MULTIPLIER + ADDEND) % modulus()) as u64
}

/// The top `bits` bits of a 48-bit state, as Java's `next(bits)` reads them.
pub open spec fn top_bits(s: u64, bits: u32) -> i32 {
    (s >> ((48 - bits) as u64)) as i32
}

/// Whether `bound` is a power of two, tested as Java does: `bound & -bound == bound`.
pub open spec fn is_power_of_two(bound: i32) -> bool {
    bound & (-bound) as i32 == bound
}

/// A draw of 31 bits is kept by `nextInt(bound)` unless it falls in the
/// incomplete last bucket: `bits - bits % bound + (bound - 1)` overflows.
pub open spec fn accepts(bits: i32, bound: i32) -> bool {
    bits - bits % bound + (bound - 1) <= i32::MAX
}

/// Upper bound on the rejection draws that the generator can produce in a row.
/// The generator has full period 2^48, so it reaches an accepting draw within
/// 2^48 steps; the bound is never reached.
pub open spec fn rejection_fuel() -> nat {
    0x1_0000_0000_0000
}

/// The state after, and the value of, the rejection loop of `nextInt(bound)`
/// from state `s`: the first accepted draw, or the last one if `fuel` runs out.
pub open spec fn rejection_draw(s: u64, bound: i32, fuel: nat) -> (u64, i32)
    decreases fuel,
{
    let next = lcg_step(s);
    let bits = top_bits(next, 31);
    if accepts(bits, bound) || fuel == 0 {
        (next, bits % bound)
    } else {
        rejection_draw(next, bound, (fuel - 1) as nat)
    }
}

/// The state after, and the value of, Java's `nextInt(bound)` from state `s`.
#[verifier::opaque]
pub open spec fn next_int_spec(s: u64, bound: i32) -> (u64, i32) {
    if is_power_of_two(bound) {
        let next = lcg_step(s);
        (next, ((bound as int * top_bits(next, 31) as int) / 0x8000_0000) as i32)
    } else {
        rejection_draw(s, bound, rejection_fuel())
    }
}

/// The state after, and the value of, Java's `nextLong()`: `(next(32) << 32) + next(32)`.
pub open spec fn next_long_spec(s: u64) -> (u64, i64) {
    let n1 = lcg_step(s);
    let n2 = lcg_step(n1);
    let high = top_bits(n1, 32);
    let low = top_bits(n2, 32);
    (n2, vstd::wrapping::i64_specs::wrapping_add((high as int * 0x1_0000_0000) as i64, low as i64))
}

/// Java's `java.util.Random` (Minecraft's `LegacyRandomSource`).
pub struct LegacyRandom48 {
    seed: u64,
}

impl LegacyRandom48 {
    /// The current 48-bit state.
    pub closed spec fn state(&self) -> u64 {
        self.seed
    }

    /// Seeds the generator as `new Random(seed)` does.
    pub fn new(seed: i64) -> (random: Self)
        ensures
            random.state() == scramble(seed),
    {
        Self { seed: (seed as u64 ^ MULTIPLIER) & SEED_MASK }
    }

    /// Java's `next(bits)`: advances the state and returns its top `bits` bits.
    pub fn next(&mut self, bits: u32) -> (value: i32)
        requires
            1 <= bits <= 32,
        ensures
            final(self).state() == lcg_step(old(self).state()),
            value == top_bits(lcg_step(old(self).state()), bits),
            final(self).state() < modulus(),
    {
        let s = self.seed;
        let next = s.wrapping_mul(MULTIPLIER).wrapping_add(ADDEND) & SEED_MASK;
        proof {
            lemma_step(s);
        }
        self.seed = next;
        (next >> (48 - bits)) as i32
    }

    /// Java's `nextLong()`.
    pub fn next_long(&mut self) -> (value: i64)
        ensures
            (final(self).state(), value) == next_long_spec(old(self).state()),
            final(self).state() < modulus(),
    {
        let high = self.next(32);
        let low = self.next(32);
        ((high as i64) * 0x1_0000_0000).wrapping_add(low as i64)
    }

    /// Java's `nextInt(bound)`: a uniform value in `[0, bound)`.
    pub fn next_int(&mut self, bound: i32) -> (value: i32)
        requires
            bound > 0,
        ensures
            (final(self).state(), value) == next_int_spec(old(self).state(), bound),
            0 <= value < bound,
            final(self).state() < modulus(),
    {
        reveal(next_int_spec);
        if bound & (-bound) == bound {
            let bits = self.next(31);
            proof {
                lemma_top31_bound(self.seed);
                assert(0 <= bits < 0x8000_0000);
                assert(0 <= bound as int * bits as int <= bound as int * 0x7FFF_FFFF)
                    by (nonlinear_arith)
                    requires
                        0 <= bits <= 0x7FFF_FFFF,
                        bound > 0,
                ;
            }
            let product = (bound as i64) * (bits as i64);
            proof {
                lemma_shift31_is_div(product);
                assert(product / 0x8000_0000 < bound) by (nonlinear_arith)
                    requires
                        0 <= product <= bound * 0x7FFF_FFFF,
                        bound > 0,
                ;
            }
            return (product >> 31) as i32;
        }
        let ghost start = self.seed;
        let mut count: u64 = 0;
        loop
            invariant
                bound > 0,
                !is_power_of_two(bound),
                count <= rejection_fuel(),
                rejection_draw(start, bound, rejection_fuel()) == rejection_draw(
                    self.seed,
                    bound,
                    (rejection_fuel() - count) as nat,
                ),
                old(self).state() == start,
            decreases rejection_fuel() - count,
        {
            let ghost before = self.seed;
            let bits = self.next(31);
            proof {
                lemma_top31_bound(self.seed);
            }
            let value = bits % bound;
            let accepted = bits - value <= i32::MAX - (bound - 1);
            proof {
                assert(accepted == accepts(bits, bound));
                assert(0 <= value < bound);
                let left = (rejection_fuel() - count) as nat;
                assert(rejection_draw(before, bound, left) == (if accepts(bits, bound) || left
                    == 0 {
                    (self.seed, value)
                } else {
                    rejection_draw(self.seed, bound, (left - 1) as nat)
                }));
            }
            reveal(next_int_spec);
            if accepted || count == 0x1_0000_0000_0000 {
                return value;
            }
            count = count + 1;
        }
    }
}

/// The exec form of one step computes the spec form.
proof fn lemma_step(s: u64)
    ensures
        (s.wrapping_mul(MULTIPLIER).wrapping_add(ADDEND) & SEED_MASK) == lcg_step(s),
        lcg_step(s) < modulus(),
{
    let w = s.wrapping_mul(MULTIPLIER);
    let a = w.wrapping_add(ADDEND);
    assert(w == (s as nat * MULTIPLIER as nat) % 0x1_0000_0000_0000_0000);
    assert(a as int == (w as int + ADDEND as int) % 0x1_0000_0000_0000_0000);
    assert(a & SEED_MASK == a % 0x1_0000_0000_0000) by (bit_vector);
    vstd::arithmetic::div_mod::lemma_add_mod_noop(
        s as int * MULTIPLIER as int,
        ADDEND as int,
        0x1_0000_0000_0000_0000,
    );
    vstd::arithmetic::div_mod::lemma_mod_mod(
        s as int * MULTIPLIER as int + ADDEND as int,
        0x1_0000_0000_0000,
        0x1_0000,
    );
    vstd::arithmetic::div_mod::lemma_mod_twice(ADDEND as int, 0x1_0000_0000_0000_0000);
}

/// Thirty-one top bits of a 48-bit state are below 2^31.
proof fn lemma_top31_bound(s: u64)
    requires
        s < modulus(),
    ensures
        0 <= top_bits(s, 31) < 0x8000_0000,
        top_bits(s, 31) as int == (s >> 17u64) as int,
{
    assert(s < 0x1_0000_0000_0000 ==> (s >> 17u64) < 0x8000_0000) by (bit_vector);
}

/// An arithmetic right shift by 31 of a non-negative value is a division.
proof fn lemma_shift31_is_div(x: i64)
    requires
        x >= 0,
    ensures
        (x >> 31) as int == x / 0x8000_0000,
{
    assert(x >= 0 ==> (x >> 31) == x / 0x8000_0000) by (bit_vector);
}

/// The rejection loop of `nextInt` yields a value in `[0, bound)`.
proof fn lemma_rejection_draw_range(s: u64, bound: i32, fuel: nat)
    requires
        bound > 0,
    ensures
        0 <= rejection_draw(s, bound, fuel).1 < bound,
        rejection_draw(s, bound, fuel).0 < modulus(),
    decreases fuel,
{
    let next = lcg_step(s);
    lemma_step(s);
    lemma_top31_bound(next);
    if !(accepts(top_bits(next, 31), bound) || fuel == 0) {
        lemma_rejection_draw_range(next, bound, (fuel - 1) as nat);
    }
}

/// `nextInt(bound)` yields a value in `[0, bound)` and a 48-bit state.
pub proof fn lemma_next_int_range(s: u64, bound: i32)
    requires
        bound > 0,
    ensures
        0 <= next_int_spec(s, bound).1 < bound,
        next_int_spec(s, bound).0 < modulus(),
{
    reveal(next_int_spec);
    if is_power_of_two(bound) {
        let next = lcg_step(s);
        lemma_step(s);
        lemma_top31_bound(next);
        let bits = top_bits(next, 31);
        assert(0 <= (bound as int * bits as int) / 0x8000_0000 < bound) by (nonlinear_arith)
            requires
                0 <= bits < 0x8000_0000,
                bound > 0,
        ;
    } else {
        lemma_rejection_draw_range(s, bound, rejection_fuel());
    }
}

} // verus!
