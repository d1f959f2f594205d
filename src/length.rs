//! Pixel lengths from binary64 (IEEE 754 double precision) measurements.
//!
//! A layout observer reports lengths as double precision numbers. They are
//! handed to this module as their 64-bit encoding, decoded here, rounded to
//! the nearest integer (halves away from zero) and limited to the largest
//! dimension a drawing surface supports.
use vstd::arithmetic::div_mod::{lemma_basic_div, lemma_div_by_multiple, lemma_div_is_ordered};
use vstd::arithmetic::power2::*;
use vstd::bits::{lemma_u64_pow2_no_overflow, lemma_u64_shl_is_mul, lemma_u64_shr_is_div};
use vstd::prelude::*;

verus! {

/// Largest width or height, in pixels, of a drawing surface.
pub const MAX_DIMENSION: u32 = 32767;

/// 2^63: the sign bit of a binary64 encoding.
pub const SIGN_BIT: u64 = 0x8000_0000_0000_0000;

/// 2^52: the weight of the lowest exponent bit, and the implicit leading
/// bit of the significand of a normal number.
pub const FRACTION_SPAN: u64 = 0x10_0000_0000_0000;

/// Number of values of the 11-bit exponent field.
pub const EXPONENT_SPAN: u64 = 0x800;

/// Exponent field of infinities and NaNs.
pub const EXPONENT_SPECIAL: u64 = 0x7ff;

/// Exponent bias plus the width of the fraction field: a finite number with
/// exponent field `e >= 1` is `significand * 2^(e - EXPONENT_OFFSET)`.
pub const EXPONENT_OFFSET: u64 = 1075;

pub open spec fn is_negative(bits: u64) -> bool {
    bits >= SIGN_BIT
}

pub open spec fn exponent_field(bits: u64) -> int {
    (bits as int / FRACTION_SPAN as int) % EXPONENT_SPAN as int
}

pub open spec fn fraction_field(bits: u64) -> int {
    bits as int % FRACTION_SPAN as int
}

pub open spec fn is_nan(bits: u64) -> bool {
    exponent_field(bits) == EXPONENT_SPECIAL && fraction_field(bits) != 0
}

pub open spec fn is_infinite(bits: u64) -> bool {
    exponent_field(bits) == EXPONENT_SPECIAL && fraction_field(bits) == 0
}

/// The integer significand of a finite number (with the implicit bit of a
/// normal number).
pub open spec fn significand(bits: u64) -> nat {
    if exponent_field(bits) == 0 {
        fraction_field(bits) as nat
    } else {
        (fraction_field(bits) + FRACTION_SPAN) as nat
    }
}

/// The number `k` with `|x| == significand * 2^(-k)` for a finite number `x`
/// (subnormal numbers share the scale of exponent field 1).
pub open spec fn scale(bits: u64) -> int {
    if exponent_field(bits) == 0 {
        EXPONENT_OFFSET - 1
    } else {
        EXPONENT_OFFSET - exponent_field(bits)
    }
}

/// The integer nearest to `m * 2^(-k)`, a tie going away from zero.
pub open spec fn round_scaled(m: nat, k: int) -> nat {
    if k <= 0 {
        m * pow2((-k) as nat)
    } else {
        (m + pow2((k - 1) as nat)) / pow2(k as nat)
    }
}

pub open spec fn clamp_dimension(n: nat) -> nat {
    if n > MAX_DIMENSION {
        MAX_DIMENSION as nat
    } else {
        n
    }
}

/// The pixel length of a reported length `x` given by its binary64 encoding:
/// `x` rounded to the nearest integer, halves away from zero, and limited to
/// `0 ..= MAX_DIMENSION`. Negative lengths and NaN give 0, positive infinity
/// gives the maximum.
pub open spec fn pixel_length(bits: u64) -> nat {
    if is_nan(bits) || is_negative(bits) {
        0
    } else if is_infinite(bits) {
        MAX_DIMENSION as nat
    } else {
        clamp_dimension(round_scaled(significand(bits), scale(bits)))
    }
}

/// Whether `m * 2^(-k)` is greater than `n`.
pub open spec fn scaled_exceeds(m: nat, k: int, n: nat) -> bool {
    if k <= 0 {
        m * pow2((-k) as nat) > n
    } else {
        m > n * pow2(k as nat)
    }
}

/// Whether `bits` encodes a number greater than `MAX_DIMENSION` (positive
/// infinity included).
pub open spec fn exceeds_max_dimension(bits: u64) -> bool {
    &&& !is_nan(bits)
    &&& !is_negative(bits)
    &&& (is_infinite(bits) || scaled_exceeds(significand(bits), scale(bits), MAX_DIMENSION as nat))
}

/// A reported length greater than the largest surface dimension becomes
/// exactly that dimension.
pub proof fn lemma_oversized_length_clamped(bits: u64)
    requires
        exceeds_max_dimension(bits),
    ensures
        pixel_length(bits) == MAX_DIMENSION,
{
    let m = significand(bits);
    let k = scale(bits);
    if !is_infinite(bits) && k > 0 {
        let p = pow2(k as nat);
        let h = pow2((k - 1) as nat);
        lemma_pow2_pos(k as nat);
        lemma_div_is_ordered(MAX_DIMENSION as int * p, (m + h) as int, p as int);
        lemma_div_by_multiple(MAX_DIMENSION as int, p as int);
    }
}

/// A number below `2^53` scaled down by more than 54 bits rounds to zero.
proof fn lemma_round_far_below_one(m: nat, k: int)
    requires
        m < pow2(53),
        k > 54,
    ensures
        round_scaled(m, k) == 0,
{
    let h = (k - 1) as nat;
    lemma_pow2_strictly_increases(53, h);
    lemma_pow2_unfold(k as nat);
    lemma_basic_div((m + pow2(h)) as int, pow2(k as nat) as int);
}

/// A significand of at least `2^52` scaled up is beyond any surface dimension.
proof fn lemma_round_above_max(m: nat, k: int)
    requires
        m >= FRACTION_SPAN,
        k <= 0,
    ensures
        round_scaled(m, k) > MAX_DIMENSION,
{
    let p = pow2((-k) as nat);
    lemma_pow2_pos((-k) as nat);
    assert(m * p >= m) by (nonlinear_arith)
        requires
            p >= 1,
    ;
}

/// Computes `pixel_length` of the binary64 number encoded by `bits`.
pub fn pixel_length_of(bits: u64) -> (r: u32)
    ensures
        r as nat == pixel_length(bits),
        r <= MAX_DIMENSION,
{
    let exponent: u64 = (bits / FRACTION_SPAN) % EXPONENT_SPAN;
    let fraction: u64 = bits % FRACTION_SPAN;
    if bits >= SIGN_BIT {
        return 0;
    }
    if exponent == EXPONENT_SPECIAL {
        if fraction == 0 {
            return MAX_DIMENSION;
        } else {
            return 0;
        }
    }
    let m: u64 = if exponent == 0 {
        fraction
    } else {
        fraction + FRACTION_SPAN
    };
    let e: u64 = if exponent == 0 {
        1
    } else {
        exponent
    };
    proof {
        lemma2_to64();
        lemma2_to64_rest();
        assert(m == significand(bits));
        assert(EXPONENT_OFFSET - e == scale(bits));
    }
    if e >= EXPONENT_OFFSET {
        proof {
            lemma_round_above_max(m as nat, EXPONENT_OFFSET - e);
        }
        return MAX_DIMENSION;
    }
    let k: u64 = EXPONENT_OFFSET - e;
    if k > 54 {
        proof {
            lemma_round_far_below_one(m as nat, k as int);
        }
        return 0;
    }
    proof {
        lemma_u64_pow2_no_overflow((k - 1) as nat);
        lemma_u64_shl_is_mul(1, (k - 1) as u64);
        lemma_pow2_strictly_increases((k - 1) as nat, 54);
    }
    let half: u64 = 1u64 << (k - 1);
    let sum: u64 = m + half;
    proof {
        lemma_u64_shr_is_div(sum, k);
    }
    let n: u64 = sum >> k;
    if n > MAX_DIMENSION as u64 {
        MAX_DIMENSION
    } else {
        n as u32
    }
}

} // verus!
