//! The arithmetic of the gyroscope offset calibration.
//!
//! One calibration round collects `MEASUREMENT_COUNT` raw samples per
//! axis. Because the divisor is exactly 1000, the per-axis *sum* of the
//! samples is the arithmetic mean expressed in thousandths of a count,
//! and every comparison and truncation the engine needs can be carried
//! out exactly on the sums in integer arithmetic:
//!
//! - the mean exceeds the tolerance of 1.5 counts iff the sum exceeds
//!   1500 thousandths;
//! - the adjustment step `sign(mean) * max(|mean| / 4, 1)`, truncated
//!   toward zero, equals `sign(sum) * max(|sum| / 4000, 1)` with
//!   truncating division;
//! - the fine-tune residual `-mean`, truncated toward zero, equals
//!   `-(sum / 1000)` with truncating division.

use vstd::prelude::*;
use crate::conversion::spec_div_trunc;

verus! {

/// The calibration loop gives up after this many rounds.
pub const MAX_CALIBRATION_STEPS: usize = 20;

/// Samples averaged per calibration round.
pub const MEASUREMENT_COUNT: usize = 1000;

/// Samples discarded at the start of every round while the sensor
/// settles.
pub const SETTLING_COUNT: usize = 100;

/// Convergence tolerance on the per-axis mean, in thousandths of a
/// count: 1.5 counts.
pub const TARGET_MAX_MEAN_MILLI: i32 = 1500;

/// Absolute value.
pub open spec fn spec_abs(a: int) -> int {
    if a >= 0 {
        a
    } else {
        -a
    }
}

/// Whether an axis whose samples summed to `sum` is outside the
/// tolerance band and has its hardware offset adjusted this round.
pub open spec fn spec_needs_adjust(sum: int) -> bool {
    spec_abs(sum) > TARGET_MAX_MEAN_MILLI
}

/// Whether an axis whose samples summed to `sum` is strictly within the
/// tolerance band. At exactly the tolerance an axis is neither adjusted
/// nor counted as converged.
pub open spec fn spec_within_tolerance(sum: int) -> bool {
    spec_abs(sum) < TARGET_MAX_MEAN_MILLI
}

/// The signed amount subtracted from the hardware offset of an axis
/// that needs adjusting: `sign(mean) * max(|mean| / 4, 1)`, truncated
/// toward zero, over the sum (`|sum| / 4000` is `|mean| / 4`).
pub open spec fn spec_offset_step(sum: int) -> int {
    if sum >= 0 {
        if sum / 4000 >= 1 {
            sum / 4000
        } else {
            1
        }
    } else {
        if (-sum) / 4000 >= 1 {
            -((-sum) / 4000)
        } else {
            -1
        }
    }
}

/// The hardware offset of one axis after a round: adjusted by the step
/// when the axis is outside the tolerance band, unchanged otherwise.
pub open spec fn spec_adjusted_offset(offset: int, sum: int) -> int {
    if spec_needs_adjust(sum) {
        offset - spec_offset_step(sum)
    } else {
        offset
    }
}

/// The software fine-tune residual captured on convergence: the negated
/// mean, truncated toward zero.
pub open spec fn spec_fine_tune(sum: int) -> int {
    -spec_div_trunc(sum, MEASUREMENT_COUNT as int)
}

/// An axis already within the tolerance band keeps its hardware offset
/// unchanged for the round.
pub proof fn lemma_tolerant_axis_keeps_offset(offset: int, sum: int)
    requires
        spec_within_tolerance(sum),
    ensures
        spec_adjusted_offset(offset, sum) == offset,
{
}

/// An axis outside the tolerance band has its hardware offset moved
/// against the sign of the mean, by at least one count: the adjustment
/// always makes progress and always pushes toward zero mean.
pub proof fn lemma_adjustment_moves_against_the_mean(offset: int, sum: int)
    requires
        spec_needs_adjust(sum),
    ensures
        sum > 0 ==> spec_adjusted_offset(offset, sum) <= offset - 1,
        sum < 0 ==> spec_adjusted_offset(offset, sum) >= offset + 1,
{
    if sum >= 0 {
        vstd::arithmetic::div_mod::lemma_div_pos_is_pos(sum, 4000);
    } else {
        vstd::arithmetic::div_mod::lemma_div_pos_is_pos(-sum, 4000);
    }
}

/// Returns whether an axis whose samples summed to `sum` is strictly
/// within the tolerance band around zero.
pub fn within_tolerance(sum: i32) -> (r: bool)
    ensures
        r == spec_within_tolerance(sum as int),
{
    if sum >= 0 {
        sum < TARGET_MAX_MEAN_MILLI
    } else {
        sum > -TARGET_MAX_MEAN_MILLI
    }
}

/// Returns the signed adjustment step for an axis whose samples summed
/// to `sum`: at least one count, and a quarter of the mean once the mean
/// is large enough.
pub fn offset_step(sum: i32) -> (r: i32)
    requires
        -1_000_000_000 <= sum <= 1_000_000_000,
    ensures
        r == spec_offset_step(sum as int),
        1 <= spec_abs(r as int) <= 250_000,
{
    if sum >= 0 {
        let q: u32 = (sum as u32) / 4000;
        if q >= 1 {
            q as i32
        } else {
            1
        }
    } else {
        let q: u32 = ((-sum) as u32) / 4000;
        if q >= 1 {
            -(q as i32)
        } else {
            -1
        }
    }
}

/// Returns the hardware offset of one axis after a round, given the
/// offset read back from the device and the sum of the round's samples.
pub fn adjust_offset(offset: i32, sum: i32) -> (r: i32)
    requires
        -32768 <= offset <= 32767,
        -100_000_000 <= sum <= 100_000_000,
    ensures
        r == spec_adjusted_offset(offset as int, sum as int),
        -57768 <= r <= 57767,
{
    if sum > TARGET_MAX_MEAN_MILLI || sum < -TARGET_MAX_MEAN_MILLI {
        offset - offset_step(sum)
    } else {
        offset
    }
}

/// Returns the fine-tune residual for an axis whose samples summed to
/// `sum`: the negated mean, truncated toward zero.
pub fn fine_tune_of(sum: i32) -> (r: i32)
    requires
        -65_536_000 <= sum <= 65_536_000,
    ensures
        r == spec_fine_tune(sum as int),
        spec_abs(r as int) <= 65536,
{
    if sum >= 0 {
        let q: u32 = (sum as u32) / 1000;
        -(q as i32)
    } else {
        let q: u32 = ((-sum) as u32) / 1000;
        q as i32
    }
}

} // verus!
