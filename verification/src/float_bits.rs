//! Exact widening of IEEE 754 single-precision bit patterns into
//! double-precision bit patterns, stated and proved over the integers.
//!
//! Every single-precision value widens to the double of the same numeric
//! value: the sign is kept, the exponent is rebiased from 127 to 1023, and
//! the 23-bit mantissa becomes the top of the 52-bit mantissa. Subnormal
//! singles normalize (every one is representable as a normal double);
//! infinities and NaNs keep their mantissa payload. No rounding occurs
//! anywhere, so the mapping is injective.

use vstd::prelude::*;
use vstd::arithmetic::power2::{
    lemma2_to64, lemma2_to64_rest, lemma_pow2_adds, lemma_pow2_strictly_increases, pow2,
};
use vstd::arithmetic::mul::{lemma_mul_inequality, lemma_mul_strict_inequality};
use vstd::arithmetic::div_mod::lemma_div_multiples_vanish;

verus! {

/// Position of the highest set bit of `m`: floor(log2 m) for m >= 1, and 0
/// for m == 0.
pub open spec fn msb_of(m: nat) -> nat
    decreases m,
{
    if m <= 1 {
        0
    } else {
        1 + msb_of((m / 2) as nat)
    }
}

proof fn lemma_msb_bounds(m: nat)
    requires
        m >= 1,
    ensures
        pow2(msb_of(m)) <= m < pow2(msb_of(m) + 1),
    decreases m,
{
    lemma2_to64();
    if m > 1 {
        lemma_msb_bounds((m / 2) as nat);
        let k = msb_of((m / 2) as nat);
        lemma_pow2_adds(k, 1);
        lemma_pow2_adds(k + 1, 1);
    }
}

/// The double-precision bit pattern that the single-precision bit pattern
/// `b` widens to, as an integer in 0 .. 2^64.
pub open spec fn widened_f32_bits(b: u32) -> int {
    let s = (b as int) / 0x8000_0000;
    let e = ((b as int) / 0x80_0000) % 0x100;
    let m = (b as int) % 0x80_0000;
    if e == 0xff {
        // Infinity or NaN: exponent field all ones, payload kept.
        s * 0x8000_0000_0000_0000 + 0x7ff0_0000_0000_0000 + m * 0x2000_0000
    } else if e != 0 {
        // Normal: rebias the exponent by 1023 - 127 = 896.
        s * 0x8000_0000_0000_0000 + (e + 896) * 0x0010_0000_0000_0000 + m * 0x2000_0000
    } else if m == 0 {
        // Signed zero.
        s * 0x8000_0000_0000_0000
    } else {
        // Subnormal: value is m * 2^-149; normalizes to exponent
        // msb - 149, biased msb - 149 + 1023 = msb + 874.
        let k = msb_of(m as nat) as int;
        s * 0x8000_0000_0000_0000 + (k + 874) * 0x0010_0000_0000_0000 + (m - pow2(k as nat))
            * (0x0010_0000_0000_0000int / pow2(k as nat) as int)
    }
}

/// Widens a single-precision bit pattern into the double-precision bit
/// pattern of the same numeric value.
pub fn widen_f32_bits(b: u32) -> (r: u64)
    ensures
        r as int == widened_f32_bits(b),
{
    let s: u64 = (b / 0x8000_0000) as u64;
    let e: u64 = ((b / 0x80_0000) % 0x100) as u64;
    let m: u64 = (b % 0x80_0000) as u64;
    assert(s <= 1 && e <= 0xff && m < 0x80_0000);
    if e == 0xff {
        s * 0x8000_0000_0000_0000 + 0x7ff0_0000_0000_0000 + m * 0x2000_0000
    } else if e != 0 {
        s * 0x8000_0000_0000_0000 + (e + 896) * 0x0010_0000_0000_0000 + m * 0x2000_0000
    } else if m == 0 {
        s * 0x8000_0000_0000_0000
    } else {
        proof {
            lemma2_to64();
        }
        let mut t: u64 = m;
        let mut k: u64 = 0;
        let mut p: u64 = 1;
        while t >= 2
            invariant
                1 <= t <= m < 0x80_0000,
                msb_of(m as nat) == k + msb_of(t as nat),
                p == pow2(k as nat),
                1 <= p,
                p * t <= m,
                k <= 23,
            decreases t,
        {
            proof {
                lemma2_to64();
                lemma_pow2_adds(k as nat, 1);
                // 2p <= p * t and 2p * (t / 2) <= p * t, since 2 * (t / 2) <= t.
                assert(2 * (p as int) <= (p as int) * (t as int)) by (nonlinear_arith)
                    requires
                        t >= 2,
                        p >= 1,
                ;
                lemma_mul_inequality(2 * ((t / 2) as int), t as int, p as int);
                assert((2 * ((t / 2) as int)) * (p as int) == (2 * (p as int)) * ((t / 2) as int))
                    by (nonlinear_arith);
                // The doubled p stays below 2^23, so k + 1 stays below 23.
                if k + 1 > 23 {
                    lemma_pow2_strictly_increases(23, (k + 1) as nat);
                }
            }
            t = t / 2;
            k = k + 1;
            p = p * 2;
        }
        proof {
            lemma_msb_bounds(m as nat);
            assert(msb_of(m as nat) == k as nat);
            lemma2_to64();
            lemma2_to64_rest();
            // p == pow2(k) <= m < pow2(23), so k <= 22.
            assert(p * 1 <= p * t) by (nonlinear_arith)
                requires
                    t >= 1,
                    p >= 0,
            ;
            if k > 23 {
                lemma_pow2_strictly_increases(23, k as nat);
            }
            assert(k <= 22);
            // q = 2^52 / 2^k == 2^(52 - k), exactly.
            lemma_pow2_adds((52 - k) as nat, k as nat);
            lemma_div_multiples_vanish(pow2((52 - k) as nat) as int, pow2(k as nat) as int);
            // m - p < p, hence (m - p) * q < p * q == 2^52.
            lemma_pow2_adds(k as nat, 1);
            lemma_mul_strict_inequality(
                (m - p) as int,
                p as int,
                (pow2((52 - k) as nat)) as int,
            );
            assert(p as int * pow2((52 - k) as nat) as int == pow2(52) as int)
                by (nonlinear_arith)
                requires
                    p == pow2(k as nat),
                    pow2((52 - k) as nat) * pow2(k as nat) == pow2(52),
            ;
        }
        let q: u64 = 0x0010_0000_0000_0000 / p;
        s * 0x8000_0000_0000_0000 + (k + 874) * 0x0010_0000_0000_0000 + (m - p) * q
    }
}

} // verus!
