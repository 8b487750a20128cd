//! Rounding to IEEE 754 binary32 (`f32`), on integers.
//!
//! A real number that is an integer multiple `n * 2^-k` of a power of two is
//! held as its numerator `n`. Rounding it to the nearest binary32 value, ties to
//! even, keeps the 24 most significant bits of `n`; the scale `2^-k` does not
//! change which bits are kept while the value stays in binary32's normal range.

use vstd::prelude::*;

verus! {

/// 2^24: a binary32 significand holds this many values.
pub open spec fn significand_limit() -> nat {
    0x100_0000
}

/// The spacing of binary32 values near a magnitude `m`: 1 below 2^24, and
/// doubling with each further bit of `m`.
pub open spec fn ulp_scale(m: nat) -> nat
    decreases m,
{
    if m < significand_limit() {
        1
    } else {
        2 * ulp_scale(m / 2)
    }
}

/// A magnitude rounded to the nearest multiple of its spacing, ties to even.
pub open spec fn round_magnitude(m: nat) -> nat {
    let p = ulp_scale(m);
    let q = m / p;
    let r = m % p;
    if 2 * r > p || (2 * r == p && q % 2 == 1) {
        (q + 1) * p
    } else {
        q * p
    }
}

/// The numerator `n` rounded to binary32, ties to even.
pub open spec fn round_binary32(n: int) -> int {
    if n < 0 {
        -round_magnitude((-n) as nat)
    } else {
        round_magnitude(n as nat) as int
    }
}

/// The spacing is at least 1 and at most the magnitude itself.
proof fn lemma_ulp_scale_bounds(m: nat)
    ensures
        1 <= ulp_scale(m),
        m >= 1 ==> ulp_scale(m) <= m,
    decreases m,
{
    if m >= significand_limit() {
        lemma_ulp_scale_bounds(m / 2);
    }
}

/// Rounding at most doubles a magnitude.
proof fn lemma_round_magnitude_bound(m: nat)
    ensures
        round_magnitude(m) <= 2 * m,
{
    let p = ulp_scale(m);
    lemma_ulp_scale_bounds(m);
    let q = m / p;
    let r = m % p;
    vstd::arithmetic::div_mod::lemma_fundamental_div_mod(m as int, p as int);
    assert(q * p + r == m);
    assert((q + 1) * p == q * p + p) by (nonlinear_arith);
    if m == 0 {
        assert(q == 0) by (nonlinear_arith)
            requires
                q * p + r == 0,
                0 <= r,
                p >= 1,
                q >= 0,
        ;
        assert(q * p == 0) by (nonlinear_arith)
            requires
                q == 0,
        ;
    }
}

/// The numerator `n`, of magnitude below 2^100, rounded to binary32, ties to even.
pub fn round_to_binary32(n: i128) -> (rounded: i128)
    requires
        -0x10_0000_0000_0000_0000_0000_0000 < n < 0x10_0000_0000_0000_0000_0000_0000,
    ensures
        rounded == round_binary32(n as int),
        -2 * (n as int) <= rounded <= 2 * (n as int) || 2 * (n as int) <= rounded <= -2 * (
        n as int),
{
    let negative = n < 0;
    let m: u128 = if negative {
        (-n) as u128
    } else {
        n as u128
    };
    let mut t: u128 = m;
    let mut p: u128 = 1;
    while t >= 0x100_0000
        invariant
            ulp_scale(m as nat) == p * ulp_scale(t as nat),
            1 <= p,
            p * t <= m,
            p == 1 || t >= 0x80_0000,
            m < 0x10_0000_0000_0000_0000_0000_0000,
        decreases t,
    {
        proof {
            assert(ulp_scale(t as nat) == 2 * ulp_scale((t / 2) as nat));
            assert(p * ulp_scale(t as nat) == (2 * p) * ulp_scale((t / 2) as nat)) by (
            nonlinear_arith)
                requires
                    ulp_scale(t as nat) == 2 * ulp_scale((t / 2) as nat),
            ;
            assert((2 * p) * (t / 2) <= p * t) by (nonlinear_arith)
                requires
                    p >= 1,
            ;
            assert(2 * p <= p * t) by (nonlinear_arith)
                requires
                    p >= 1,
                    t >= 0x100_0000,
            ;
        }
        t = t / 2;
        p = 2 * p;
    }
    proof {
        assert(ulp_scale(t as nat) == 1);
        assert(ulp_scale(m as nat) == p) by (nonlinear_arith)
            requires
                ulp_scale(m as nat) == p * ulp_scale(t as nat),
                ulp_scale(t as nat) == 1,
        ;
        lemma_ulp_scale_bounds(m as nat);
        lemma_round_magnitude_bound(m as nat);
        if p != 1 {
            assert(p <= p * t) by (nonlinear_arith)
                requires
                    t >= 1,
                    p >= 1,
            ;
        }
        assert(p <= m || p == 1);
        assert(m % p < p);
    }
    let q = m / p;
    let r = m % p;
    let magnitude = if 2 * r > p || (2 * r == p && q % 2 == 1) {
        proof {
            vstd::arithmetic::div_mod::lemma_fundamental_div_mod(m as int, p as int);
            assert((q + 1) * p == q * p + p) by (nonlinear_arith);
            assert(q * p <= m) by (nonlinear_arith)
                requires
                    p * q + r == m,
                    r >= 0,
            ;
        }
        (q + 1) * p
    } else {
        proof {
            vstd::arithmetic::div_mod::lemma_fundamental_div_mod(m as int, p as int);
            assert(q * p <= m) by (nonlinear_arith)
                requires
                    p * q + r == m,
                    r >= 0,
            ;
        }
        q * p
    };
    proof {
        assert(magnitude == round_magnitude(m as nat));
    }
    if negative {
        -(magnitude as i128)
    } else {
        magnitude as i128
    }
}

} // verus!
