//! Uniform quantization of amplitudes in `[-1, 1]`.
//!
//! An amplitude is held in fixed point: the integer `a` stands for
//! `a / FIXED_ONE`. With `levels = 2^bit_depth`, an amplitude is rounded to
//! the nearest multiple of `1 / (levels / 2)`, halves away from zero; the
//! result is kept as its level index `q`, which stands for `q / (levels / 2)`.
use crate::params::MAX_BIT_DEPTH;
use vstd::arithmetic::div_mod::*;
use vstd::arithmetic::mul::*;
use vstd::arithmetic::power2::*;
use vstd::prelude::*;

verus! {

/// The fixed-point value of amplitude 1.0, `2^48`.
pub const FIXED_ONE: i64 = 281_474_976_710_656;

/// Number of distinct amplitude levels at a bit depth: `2^bit_depth`.
pub open spec fn spec_amplitude_levels(bit_depth: nat) -> nat {
    pow2(bit_depth)
}

/// Steps per unit amplitude: `levels / 2`.
pub open spec fn half_levels(bit_depth: nat) -> int {
    spec_amplitude_levels(bit_depth) as int / 2
}

/// Width of one quantization step in fixed point: `FIXED_ONE / (levels / 2)`.
pub open spec fn step_width(bit_depth: nat) -> int {
    FIXED_ONE as int / half_levels(bit_depth)
}

/// `n / d` rounded to the nearest integer, halves away from zero (`d > 0`).
pub open spec fn round_div(n: int, d: int) -> int {
    if n >= 0 {
        (2 * n + d) / (2 * d)
    } else {
        -((-2 * n + d) / (2 * d))
    }
}

/// Level index of the fixed-point amplitude `a`.
pub open spec fn quantized_level(bit_depth: nat, a: int) -> int {
    round_div(a, step_width(bit_depth))
}

/// Fixed-point amplitude that level `q` stands for.
pub open spec fn level_amplitude(bit_depth: nat, q: int) -> int {
    q * step_width(bit_depth)
}

/// Bit depths the quantizer accepts.
pub open spec fn valid_bit_depth(bit_depth: u32) -> bool {
    1 <= bit_depth <= MAX_BIT_DEPTH
}

/// Whether a fixed-point value lies in the amplitude range `[-1, 1]`.
pub open spec fn in_amplitude_range(a: int) -> bool {
    -FIXED_ONE <= a <= FIXED_ONE
}

proof fn lemma_step_width(bit_depth: nat)
    requires
        1 <= bit_depth <= 32,
    ensures
        half_levels(bit_depth) == pow2((bit_depth - 1) as nat),
        step_width(bit_depth) == pow2((49 - bit_depth) as nat),
        half_levels(bit_depth) * step_width(bit_depth) == FIXED_ONE,
        pow2(17) <= step_width(bit_depth) <= pow2(48),
        1 <= half_levels(bit_depth) <= pow2(31),
{
    let b = bit_depth;
    lemma_pow2_unfold(b);
    lemma_pow2_adds((b - 1) as nat, (49 - b) as nat);
    lemma2_to64();
    lemma2_to64_rest();
    lemma_pow2_pos((b - 1) as nat);
    lemma_pow2_pos((49 - b) as nat);
    let h = pow2((b - 1) as nat) as int;
    let s = pow2((49 - b) as nat) as int;
    assert(pow2(b) == 2 * h);
    assert((2 * h) / 2 == h);
    assert(((b - 1) as nat + (49 - b) as nat) as nat == 48);
    assert(pow2((b - 1) as nat) * pow2((49 - b) as nat) == pow2(48));
    assert(pow2(48) == FIXED_ONE);
    assert(h * s == FIXED_ONE);
    assert(s * h == FIXED_ONE) by (nonlinear_arith)
        requires
            h * s == FIXED_ONE,
    ;
    lemma_fundamental_div_mod_converse_div(FIXED_ONE as int, h, s, 0);
    if b < 32 {
        lemma_pow2_strictly_increases((b - 1) as nat, 31);
        lemma_pow2_strictly_increases(17, (49 - b) as nat);
    }
    if b > 1 {
        lemma_pow2_strictly_increases((49 - b) as nat, 48);
        lemma_pow2_strictly_increases(0, (b - 1) as nat);
    }
}

/// Number of amplitude levels at `bit_depth`: `2^bit_depth`.
pub fn amplitude_levels(bit_depth: u32) -> (r: u64)
    requires
        valid_bit_depth(bit_depth),
    ensures
        r == spec_amplitude_levels(bit_depth as nat),
{
    let mut r: u64 = 1;
    let mut i: u32 = 0;
    proof {
        lemma2_to64();
    }
    while i < bit_depth
        invariant
            i <= bit_depth <= 32,
            r == pow2(i as nat),
        decreases bit_depth - i,
    {
        proof {
            lemma_pow2_unfold((i + 1) as nat);
            lemma_pow2_strictly_increases((i + 1) as nat, 33);
            lemma2_to64_rest();
        }
        r = r * 2;
        i = i + 1;
    }
    r
}

/// Width of one quantization step in fixed point.
fn quantization_step(bit_depth: u32) -> (r: i64)
    requires
        valid_bit_depth(bit_depth),
    ensures
        r == step_width(bit_depth as nat),
        r > 0,
{
    proof {
        lemma_step_width(bit_depth as nat);
    }
    let half = amplitude_levels(bit_depth) / 2;
    proof {
        lemma_pow2_pos((49 - bit_depth) as nat);
    }
    FIXED_ONE / (half as i64)
}

/// Rounds the fixed-point amplitude `a` to its level index at `bit_depth`.
pub fn quantize(bit_depth: u32, a: i64) -> (q: i64)
    requires
        valid_bit_depth(bit_depth),
    ensures
        q == quantized_level(bit_depth as nat, a as int),
{
    let d = quantization_step(bit_depth) as i128;
    let n = a as i128;
    let q = if n >= 0 {
        (2 * n + d) / (2 * d)
    } else {
        -((-2 * n + d) / (2 * d))
    };
    proof {
        lemma_step_width(bit_depth as nat);
        lemma2_to64();
        let dd = 2 * d as int;
        let m: int = if n >= 0 { 2 * n + d } else { -2 * n + d };
        let bound: int = 0x1_0002_0000_0000_0000;
        assert(0 <= m <= bound);
        lemma_div_is_ordered_by_denominator(m, 0x40000, dd);
        lemma_div_is_ordered(m, bound, 0x40000);
        lemma_fundamental_div_mod_converse_div(bound, 0x40000, 0x4000_8000_0000, 0);
        lemma_div_pos_is_pos(m, dd);
    }
    q as i64
}

/// Fixed-point amplitude of level `q` at `bit_depth`.
pub fn dequantize(bit_depth: u32, q: i64) -> (a: i64)
    requires
        valid_bit_depth(bit_depth),
        -half_levels(bit_depth as nat) <= q <= half_levels(bit_depth as nat),
    ensures
        a == level_amplitude(bit_depth as nat, q as int),
        in_amplitude_range(a as int),
{
    let s = quantization_step(bit_depth);
    proof {
        lemma_step_width(bit_depth as nat);
        let h = half_levels(bit_depth as nat);
        if q >= 0 {
            lemma_mul_inequality(q as int, h, s as int);
        } else {
            lemma_mul_inequality(-q, h, s as int);
            assert((-q) * s == -(q * s)) by (nonlinear_arith);
        }
    }
    q * s
}

/// Rounding an exact multiple of `d` gives back the multiplier.
proof fn lemma_round_div_multiple(q: int, d: int)
    requires
        d > 0,
    ensures
        round_div(q * d, d) == q,
{
    if q >= 0 {
        assert(q * d >= 0) by (nonlinear_arith)
            requires
                q >= 0,
                d > 0,
        ;
        assert(2 * (q * d) + d == q * (2 * d) + d) by (nonlinear_arith);
        lemma_fundamental_div_mod_converse_div(2 * (q * d) + d, 2 * d, q, d);
    } else {
        assert(q * d < 0) by (nonlinear_arith)
            requires
                q < 0,
                d > 0,
        ;
        assert(-2 * (q * d) + d == (-q) * (2 * d) + d) by (nonlinear_arith);
        lemma_fundamental_div_mod_converse_div(-2 * (q * d) + d, 2 * d, -q, d);
    }
}

/// An amplitude in `[-1, 1]` is rounded to a level between `-levels/2` and
/// `levels/2`.
pub proof fn lemma_level_in_range(bit_depth: u32, a: int)
    requires
        valid_bit_depth(bit_depth),
        in_amplitude_range(a),
    ensures
        -half_levels(bit_depth as nat) <= quantized_level(bit_depth as nat, a) <= half_levels(
            bit_depth as nat,
        ),
{
    let b = bit_depth as nat;
    lemma_step_width(b);
    let h = half_levels(b);
    let d = step_width(b);
    lemma_pow2_pos(17);
    lemma_round_div_multiple(h, d);
    assert(h * d == FIXED_ONE);
    if a >= 0 {
        lemma_div_is_ordered(2 * a + d, 2 * (h * d) + d, 2 * d);
    } else {
        lemma_div_is_ordered(-2 * a + d, 2 * (h * d) + d, 2 * d);
    }
}

/// Quantizing an amplitude that is already quantized, at the same bit depth,
/// changes nothing: its level is the level it came from.
pub proof fn lemma_requantize_is_identity(bit_depth: u32, a: int)
    requires
        valid_bit_depth(bit_depth),
    ensures
        quantized_level(
            bit_depth as nat,
            level_amplitude(bit_depth as nat, quantized_level(bit_depth as nat, a)),
        ) == quantized_level(bit_depth as nat, a),
{
    lemma_step_width(bit_depth as nat);
    lemma_pow2_pos(17);
    lemma_round_div_multiple(quantized_level(bit_depth as nat, a), step_width(bit_depth as nat));
}

/// At one bit there are two amplitude levels, and every amplitude in `[-1, 1]`
/// is quantized to -1, 0 or 1.
pub proof fn lemma_one_bit_has_three_values(a: int)
    requires
        in_amplitude_range(a),
    ensures
        spec_amplitude_levels(1) == 2,
        half_levels(1) == 1,
        quantized_level(1, a) == -1 || quantized_level(1, a) == 0 || quantized_level(1, a) == 1,
        level_amplitude(1, quantized_level(1, a)) == -FIXED_ONE || level_amplitude(
            1,
            quantized_level(1, a),
        ) == 0 || level_amplitude(1, quantized_level(1, a)) == FIXED_ONE,
{
    lemma_step_width(1);
    lemma2_to64();
    lemma_level_in_range(1, a);
}

} // verus!
