//! Fixed-point helpers for the audio math: a base-2 logarithm with ten
//! fractional bits and an integer square root. Both carry exact contracts;
//! the dB and probability formulas elsewhere are stated over them.

use vstd::prelude::*;
use vstd::arithmetic::power2::{
    lemma2_to64, lemma_pow2_pos, lemma_pow2_strictly_increases, lemma_pow2_unfold, pow2,
};

verus! {

/// Number of fractional bits carried by `log2_fixed`.
pub const LOG2_FRAC_BITS: u64 = 10;

/// One in `log2_fixed` units: 2 to the `LOG2_FRAC_BITS`.
pub const LOG2_ONE: u64 = 1024;

/// `x` doubled until it reaches the top bit: the mantissa of `x` with 63
/// fractional bits.
pub open spec fn spec_normalize64(x: u64) -> u64
    decreases u64::MAX - x,
    when x >= 1
{
    if x >= 0x8000_0000_0000_0000 {
        x
    } else {
        spec_normalize64((2 * x) as u64)
    }
}

/// How many doublings `spec_normalize64` takes.
pub open spec fn spec_norm_shift(x: u64) -> int
    decreases u64::MAX - x,
    when x >= 1
{
    if x >= 0x8000_0000_0000_0000 {
        0
    } else {
        1 + spec_norm_shift((2 * x) as u64)
    }
}

/// One fractional-refinement pass: square the mantissa `f` times, taking
/// one output bit per squaring, most significant first.
pub open spec fn spec_log2_frac(m: u64, f: nat) -> int
    decreases f,
{
    if f == 0 {
        0
    } else {
        let sq = (m as int) * (m as int) / 0x8000_0000_0000_0000;
        if sq >= 0x1_0000_0000_0000_0000 {
            pow2((f - 1) as nat) + spec_log2_frac((sq / 2) as u64, (f - 1) as nat)
        } else {
            spec_log2_frac(sq as u64, (f - 1) as nat)
        }
    }
}

/// The fixed-point base-2 logarithm of `x >= 1`, in units of
/// 1/1024: the integer part from the leading-bit position, ten fractional
/// bits from repeated squaring of the mantissa.
pub open spec fn spec_log2_fixed(x: u64) -> int {
    (63 - spec_norm_shift(x)) * 1024 + spec_log2_frac(spec_normalize64(x), 10)
}

proof fn lemma_normalize64_props(x: u64)
    requires
        x >= 1,
    ensures
        0 <= spec_norm_shift(x),
        spec_normalize64(x) >= 0x8000_0000_0000_0000,
        spec_normalize64(x) as int == (x as int) * pow2(spec_norm_shift(x) as nat),
    decreases u64::MAX - x,
{
    if x >= 0x8000_0000_0000_0000 {
        assert(pow2(0) == 1) by {
            lemma2_to64();
        }
        assert(spec_norm_shift(x) == 0);
        assert(spec_normalize64(x) == x);
        assert((x as int) * pow2(spec_norm_shift(x) as nat) == x as int) by (nonlinear_arith)
            requires
                pow2(spec_norm_shift(x) as nat) == 1,
        ;
    } else {
        let x2 = (2 * x) as u64;
        lemma_normalize64_props(x2);
        let s = spec_norm_shift(x2);
        assert(spec_norm_shift(x) == 1 + s);
        assert(spec_normalize64(x) == spec_normalize64(x2));
        lemma_pow2_unfold((s + 1) as nat);
        assert(pow2((s + 1) as nat) == 2 * pow2(s as nat));
        assert(spec_normalize64(x2) as int == (x2 as int) * pow2(s as nat));
        assert((x2 as int) * pow2(s as nat) == (x as int) * pow2((s + 1) as nat)) by (
        nonlinear_arith)
            requires
                x2 == 2 * (x as int),
                pow2((s + 1) as nat) == 2 * pow2(s as nat),
        ;
        assert(spec_norm_shift(x) as nat == (s + 1) as nat);
        assert(spec_normalize64(x) as int == (x as int) * pow2(spec_norm_shift(x) as nat));
    }
}

proof fn lemma_norm_shift_le_63(x: u64)
    requires
        x >= 1,
    ensures
        0 <= spec_norm_shift(x) <= 63,
{
    lemma_normalize64_props(x);
    let s = spec_norm_shift(x) as nat;
    if s > 63 {
        lemma2_to64();
        lemma_pow2_pos(s);
        if s > 64 {
            lemma_pow2_strictly_increases(64, s);
        }
        assert(pow2(s) >= 0x1_0000_0000_0000_0000);
        assert((x as int) * pow2(s) >= pow2(s)) by (nonlinear_arith)
            requires
                x >= 1,
                pow2(s) > 0,
        ;
        assert(spec_normalize64(x) as int <= u64::MAX as int);
        assert(false);
    }
}

/// Fixed-point base-2 logarithm: 1024 times the logarithm of `x`, with the
/// fractional part computed to ten bits by repeated squaring.
pub fn log2_fixed(x: u64) -> (r: u64)
    requires
        x >= 1,
    ensures
        r == spec_log2_fixed(x),
        r <= 64 * 1024,
{
    proof {
        lemma_normalize64_props(x);
        lemma_norm_shift_le_63(x);
    }
    let mut m: u64 = x;
    let mut shifts: u64 = 0;
    while m < 0x8000_0000_0000_0000
        invariant
            1 <= m,
            0 <= shifts <= 63,
            0 <= spec_norm_shift(x) <= 63,
            spec_normalize64(x) == spec_normalize64(m),
            spec_norm_shift(x) == shifts + spec_norm_shift(m),
            spec_norm_shift(m) >= 0,
        decreases u64::MAX - m,
    {
        proof {
            lemma_norm_shift_le_63(m);
            lemma_normalize64_props((2 * m) as u64);
            lemma_norm_shift_le_63((2 * m) as u64);
        }
        m = m * 2;
        shifts = shifts + 1;
    }
    proof {
        assert(spec_norm_shift(m) == 0);
        assert(spec_normalize64(m) == m);
        assert(m == spec_normalize64(x));
        assert(shifts == spec_norm_shift(x));
    }

    let ghost m0 = m;
    let mut acc: u64 = 0;
    let mut iter: u64 = 0;
    proof {
        lemma2_to64();
    }
    while iter < 10
        invariant
            0 <= iter <= 10,
            acc < pow2(iter as nat),
            0x8000_0000_0000_0000 <= m,
            spec_log2_frac(m0, 10) == acc * pow2((10 - iter) as nat) + spec_log2_frac(
                m,
                (10 - iter) as nat,
            ),
        decreases 10 - iter,
    {
        let ghost m_prev = m;
        let ghost acc_prev = acc as int;
        let ghost f = (10 - iter) as nat;
        proof {
            assert((m as int) * (m as int) < 0x1_0000_0000_0000_0000_0000_0000_0000_0000) by (
            nonlinear_arith)
                requires
                    m < 0x1_0000_0000_0000_0000u128,
            ;
            assert((m as int) * (m as int) >= 0x8000_0000_0000_0000 * 0x8000_0000_0000_0000) by (
            nonlinear_arith)
                requires
                    m >= 0x8000_0000_0000_0000u64,
            ;
            lemma_pow2_unfold(f);
            lemma_pow2_pos((f - 1) as nat);
            lemma2_to64();
            if iter < 9 {
                lemma_pow2_strictly_increases(iter as nat, 9);
            }
        }
        let sq: u128 = ((m as u128) * (m as u128)) / 0x8000_0000_0000_0000;
        let bit: u64;
        if sq >= 0x1_0000_0000_0000_0000 {
            bit = 1;
            m = (sq / 2) as u64;
        } else {
            bit = 0;
            m = sq as u64;
        }
        proof {
            assert(spec_log2_frac(m_prev, f) == (bit as int) * pow2((f - 1) as nat)
                + spec_log2_frac(m, (f - 1) as nat));
            assert(acc_prev * pow2(f) == (2 * acc_prev) * pow2((f - 1) as nat)) by (
            nonlinear_arith)
                requires
                    pow2(f) == 2 * pow2((f - 1) as nat),
            ;
            assert((2 * acc_prev) * pow2((f - 1) as nat) + (bit as int) * pow2((f - 1) as nat) == (2
                * acc_prev + bit) * pow2((f - 1) as nat)) by (nonlinear_arith);
            assert(acc < 512);
        }
        acc = acc * 2 + bit;
        proof {
            assert(acc < pow2((iter + 1) as nat)) by {
                lemma_pow2_unfold((iter + 1) as nat);
            }
        }
        iter = iter + 1;
    }
    proof {
        lemma2_to64();
        assert(pow2(0) == 1);
        assert(spec_log2_frac(m, 0) == 0);
        assert((acc as int) * pow2(0) == acc as int) by (nonlinear_arith)
            requires
                pow2(0) == 1,
        ;
        assert(spec_log2_frac(m0, 10) == acc);
        assert(acc < 1024);
    }
    (63 - shifts) * 1024 + acc
}

proof fn lemma_log2_frac_range(m: u64, f: nat)
    ensures
        0 <= spec_log2_frac(m, f) < pow2(f),
    decreases f,
{
    lemma_pow2_pos(f);
    if f == 0 {
        lemma2_to64();
    } else {
        lemma_pow2_unfold(f);
        let sq = (m as int) * (m as int) / 0x8000_0000_0000_0000;
        assert(0 <= (m as int) * (m as int)) by (nonlinear_arith);
        vstd::arithmetic::div_mod::lemma_div_pos_is_pos(
            (m as int) * (m as int),
            0x8000_0000_0000_0000,
        );
        if sq >= 0x1_0000_0000_0000_0000 {
            lemma_log2_frac_range((sq / 2) as u64, (f - 1) as nat);
        } else {
            lemma_log2_frac_range(sq as u64, (f - 1) as nat);
        }
    }
}

/// The fixed-point logarithm of a positive 64-bit value lies between 0 and
/// 64 in `log2_fixed` units.
pub proof fn lemma_log2_fixed_range(x: u64)
    requires
        x >= 1,
    ensures
        0 <= spec_log2_fixed(x) <= 64 * 1024,
{
    lemma_norm_shift_le_63(x);
    lemma_log2_frac_range(spec_normalize64(x), 10);
    lemma2_to64();
}

/// The integer square root of `x`: the unique `r` with
/// `r * r <= x < (r + 1) * (r + 1)`.
pub open spec fn spec_isqrt(x: int) -> int {
    choose|r: int| 0 <= r && #[trigger] (r * r) <= x && x < (r + 1) * (r + 1)
}

/// Floor square root over the full u128 range.
pub fn isqrt128(x: u128) -> (r: u64)
    ensures
        (r as int) * (r as int) <= x < (r as int + 1) * (r as int + 1),
        r as int == spec_isqrt(x as int),
{
    let mut lo: u128 = 0;
    let mut hi: u128 = 0x1_0000_0000_0000_0000;
    proof {
        assert((0x1_0000_0000_0000_0000 as int) * (0x1_0000_0000_0000_0000 as int) > u128::MAX) by (
        nonlinear_arith);
    }
    while hi - lo > 1
        invariant
            0 <= lo < hi <= 0x1_0000_0000_0000_0000,
            (lo as int) * (lo as int) <= x,
            x < (hi as int) * (hi as int),
        decreases hi - lo,
    {
        let mid: u128 = lo + (hi - lo) / 2;
        proof {
            assert((mid as int) * (mid as int) < 0x1_0000_0000_0000_0000_0000_0000_0000_0000) by (
            nonlinear_arith)
                requires
                    mid < 0x1_0000_0000_0000_0000u128,
            ;
        }
        if mid * mid <= x {
            lo = mid;
        } else {
            hi = mid;
        }
    }
    let r = lo as u64;
    proof {
        let ri = r as int;
        assert(x < (ri + 1) * (ri + 1));
        let w = spec_isqrt(x as int);
        assert(0 <= w && w * w <= x as int && (x as int) < (w + 1) * (w + 1)) by {
            assert(0 <= ri && ri * ri <= x as int && (x as int) < (ri + 1) * (ri + 1));
        }
        assert(w == ri) by (nonlinear_arith)
            requires
                0 <= w,
                0 <= ri,
                w * w <= x as int,
                (x as int) < (w + 1) * (w + 1),
                ri * ri <= x as int,
                (x as int) < (ri + 1) * (ri + 1),
        ;
    }
    r
}

} // verus!
