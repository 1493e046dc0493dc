//! Shared arithmetic for the bounded, smoothed state-update protocol.

use vstd::prelude::*;

verus! {

/// Fixed divisor limiting the magnitude of a single smoothed update.
pub const SMOOTHING_FACTOR: u32 = 10;

/// The value a smoothed update drives a counter towards: the current value
/// plus the input signal divided by the smoothing factor, saturating at
/// `u32::MAX`.
pub open spec fn smoothed(current: u32, signal: u32) -> u32 {
    current.saturating_add(signal / SMOOTHING_FACTOR)
}

/// A value clamped into the inclusive range `[min, max]`.
pub open spec fn clamped(value: u32, min: u32, max: u32) -> u32 {
    if value > max {
        max
    } else if value < min {
        min
    } else {
        value
    }
}

/// A product saturating at `u32::MAX`.
pub open spec fn sat_mul(a: u32, b: u32) -> u32 {
    if a * b > u32::MAX {
        u32::MAX
    } else {
        (a * b) as u32
    }
}

/// A smoothed update never decreases the stored value: the adjustment is
/// non-negative and the addition saturates instead of wrapping.
pub proof fn lemma_smoothed_monotonic(current: u32, signal: u32)
    ensures
        smoothed(current, signal) >= current,
{
}

/// Computes the smoothed target value for a counter update.
pub fn smoothed_value(current: u32, signal: u32) -> (r: u32)
    ensures
        r == smoothed(current, signal),
{
    current.saturating_add(signal / SMOOTHING_FACTOR)
}

/// Computes a product saturating at `u32::MAX`.
pub fn sat_mul_value(a: u32, b: u32) -> (r: u32)
    ensures
        r == sat_mul(a, b),
{
    match a.checked_mul(b) {
        Some(v) => v,
        None => u32::MAX,
    }
}

/// Clamps a value into the inclusive range `[min, max]`.
pub fn clamp_value(value: u32, min: u32, max: u32) -> (r: u32)
    ensures
        r == clamped(value, min, max),
{
    if value > max {
        max
    } else if value < min {
        min
    } else {
        value
    }
}

} // verus!
