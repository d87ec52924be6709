//! How many integration steps one rendered frame takes, and how long each is.
//!
//! The acceleration factor counts simulated days per frame. Below one, a
//! frame is a single step of that fraction of a day. From one on, a frame is
//! the factor, rounded to the nearest whole number, of steps of one day each.

use vstd::prelude::*;
use vstd::arithmetic::power2::{lemma2_to64, lemma2_to64_rest, lemma_pow2_strictly_increases, pow2};
use vstd::bits::{lemma_u64_shl_is_mul, lemma_u64_shr_is_div};
use crate::scalar::{Scalar, INFINITY_BITS};

verus! {

/// The encoding of `86400.0`, the seconds of one day.
pub const SECONDS_PER_DAY_BITS: u64 = 0x40F5_1800_0000_0000;

/// Two to the power 52: the first value that does not fit the fraction field.
pub const FRACTION_RANGE: u64 = 0x0010_0000_0000_0000;

/// The exponent field of a number at which one unit in the last place of the
/// significand is worth one.
pub const UNIT_EXPONENT: u64 = 1075;

/// The largest count that is ever returned, `i64::MAX`.
pub const MAX_STEPS: u64 = 0x7FFF_FFFF_FFFF_FFFF;

/// The steps of one frame and the length of each.
#[derive(Clone, Copy, Debug)]
pub struct FramePlan {
    pub steps: u64,
    pub dt: Scalar,
}

/// The eleven bits after the sign.
pub open spec fn spec_exponent_field(x: Scalar) -> nat {
    (x.spec_magnitude() / FRACTION_RANGE) as nat
}

/// The significand of a normal number, with its leading one: the value of the
/// number is `significand * 2^(exponent_field - 1075)`.
pub open spec fn spec_significand(x: Scalar) -> nat {
    (FRACTION_RANGE + x.spec_magnitude() % FRACTION_RANGE) as nat
}

/// `significand / 2^shift`, rounded to the nearest whole number, a half going
/// up: the floor of the quotient plus one half.
pub open spec fn round_shifted(significand: nat, shift: nat) -> nat
    recommends
        shift >= 1,
{
    (significand + pow2((shift - 1) as nat)) / pow2(shift)
}

/// The number rounded to the nearest whole number, halves away from zero, and
/// held between zero and `MAX_STEPS`; zero for a NaN.
pub open spec fn spec_whole_steps(x: Scalar) -> nat {
    let exponent = spec_exponent_field(x);
    if x.is_nan() || x.is_sign_negative() || exponent == 0 {
        0
    } else if !x.is_finite() {
        MAX_STEPS as nat
    } else if exponent >= UNIT_EXPONENT {
        let whole = spec_significand(x) * pow2((exponent - UNIT_EXPONENT) as nat);
        if whole <= MAX_STEPS {
            whole
        } else {
            MAX_STEPS as nat
        }
    } else {
        round_shifted(spec_significand(x), (UNIT_EXPONENT - exponent) as nat)
    }
}

/// The base step: one day, in seconds.
pub open spec fn spec_seconds_per_day() -> Scalar {
    Scalar { bits: SECONDS_PER_DAY_BITS }
}

/// The plan of a frame under the acceleration factor `factor`. A NaN is not
/// below one and rounds to no step at all.
pub open spec fn spec_plan_frame(factor: Scalar) -> FramePlan {
    if factor.lt(Scalar::one()) {
        FramePlan { steps: 1, dt: spec_seconds_per_day().mul(factor) }
    } else {
        FramePlan { steps: spec_whole_steps(factor) as u64, dt: spec_seconds_per_day() }
    }
}

/// A significand below two to the 53 is less than half of two to the `shift`
/// from 54 on, so it rounds to zero.
proof fn lemma_small_rounds_to_zero(significand: nat, shift: nat)
    requires
        significand < 2 * FRACTION_RANGE,
        shift >= 54,
    ensures
        round_shifted(significand, shift) == 0,
{
    lemma2_to64_rest();
    if shift > 54 {
        lemma_pow2_strictly_increases(53, (shift - 1) as nat);
    }
    vstd::arithmetic::power2::lemma_pow2_unfold(shift);
    let numerator = significand + pow2((shift - 1) as nat);
    assert(numerator < pow2(shift));
    vstd::arithmetic::div_mod::lemma_basic_div(numerator as int, pow2(shift) as int);
}

/// The number rounded to a count of steps, see [`spec_whole_steps`].
pub fn whole_steps(x: Scalar) -> (steps: u64)
    ensures
        steps == spec_whole_steps(x),
        steps <= MAX_STEPS,
{
    let magnitude = x.magnitude();
    let exponent = magnitude / FRACTION_RANGE;
    let significand = FRACTION_RANGE + magnitude % FRACTION_RANGE;
    if x.is_nan() || x.is_sign_negative() || exponent == 0 {
        0
    } else if magnitude == INFINITY_BITS {
        MAX_STEPS
    } else if exponent >= UNIT_EXPONENT + 11 {
        proof {
            lemma2_to64();
            let up = (exponent - UNIT_EXPONENT) as nat;
            if up > 11 {
                lemma_pow2_strictly_increases(11, up);
            }
            assert(significand * pow2(up) > MAX_STEPS) by (nonlinear_arith)
                requires
                    significand >= 0x0010_0000_0000_0000,
                    pow2(up) >= 0x800,
            ;
        }
        MAX_STEPS
    } else if exponent >= UNIT_EXPONENT {
        let up = exponent - UNIT_EXPONENT;
        proof {
            lemma2_to64();
            if up < 10 {
                lemma_pow2_strictly_increases(up as nat, 10);
            }
            assert(significand * pow2(up as nat) <= MAX_STEPS) by (nonlinear_arith)
                requires
                    significand < 0x0020_0000_0000_0000,
                    pow2(up as nat) <= 0x400,
            ;
            lemma_u64_shl_is_mul(significand, up);
        }
        significand << up
    } else if exponent < UNIT_EXPONENT - 53 {
        proof {
            lemma_small_rounds_to_zero(significand as nat, (UNIT_EXPONENT - exponent) as nat);
        }
        0
    } else {
        let shift = UNIT_EXPONENT - exponent;
        proof {
            lemma2_to64();
            lemma2_to64_rest();
            if shift - 1 < 52 {
                lemma_pow2_strictly_increases((shift - 1) as nat, 52);
            }
            lemma_u64_shl_is_mul(1, (shift - 1) as u64);
            lemma_u64_shr_is_div((significand + pow2((shift - 1) as nat)) as u64, shift);
            vstd::arithmetic::power2::lemma_pow2_pos(shift as nat);
            vstd::arithmetic::div_mod::lemma_div_nonincreasing(
                significand + pow2((shift - 1) as nat),
                pow2(shift as nat) as int,
            );
        }
        (significand + (1u64 << (shift - 1))) >> shift
    }
}

/// The base step: one day, in seconds.
#[verifier::when_used_as_spec(spec_seconds_per_day)]
pub fn seconds_per_day() -> (day: Scalar)
    ensures
        day == spec_seconds_per_day(),
{
    Scalar::from_bits(SECONDS_PER_DAY_BITS)
}

/// Decides what one frame does under the acceleration factor `factor`.
#[verifier::when_used_as_spec(spec_plan_frame)]
pub fn plan_frame(factor: Scalar) -> (plan: FramePlan)
    ensures
        plan == spec_plan_frame(factor),
{
    if factor.lt(Scalar::one()) {
        FramePlan { steps: 1, dt: seconds_per_day().mul(factor) }
    } else {
        FramePlan { steps: whole_steps(factor), dt: seconds_per_day() }
    }
}

/// The simulated days that pass in a second at `frames_per_second` frames.
pub open spec fn spec_days_per_second(iterations_per_frame: Scalar, frames_per_second: i32) -> Scalar {
    iterations_per_frame.mul(Scalar::from_i32(frames_per_second))
}

/// The simulated days that pass in a second at `frames_per_second` frames.
#[verifier::when_used_as_spec(spec_days_per_second)]
pub fn days_per_second(iterations_per_frame: Scalar, frames_per_second: i32) -> (days: Scalar)
    ensures
        days == spec_days_per_second(iterations_per_frame, frames_per_second),
{
    iterations_per_frame.mul(Scalar::from_i32(frames_per_second))
}

} // verus!
