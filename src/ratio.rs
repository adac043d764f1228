//! Utilisation ratios in fixed point.
//!
//! A ratio is held in parts per ten thousand: `FULL_SCALE` stands for 1.0.
//! A load of `p` percent, in hundredths of a percent, is the same number as
//! its ratio in parts per ten thousand, so a reading needs no division.
use vstd::prelude::*;

verus! {

/// The fixed-point value of the ratio 1.0.
pub const FULL_SCALE: u32 = 10000;

/// A raw reading bounded to the closed range [0, FULL_SCALE].
pub open spec fn clamped(raw: int) -> int {
    if raw < 0 {
        0
    } else if raw > FULL_SCALE {
        FULL_SCALE as int
    } else {
        raw
    }
}

/// Bounds a raw reading, in hundredths of a percent, to a ratio in
/// [0, FULL_SCALE]. Readings already in range come back unchanged.
pub fn clamp_ratio(raw: i64) -> (r: u32)
    ensures
        r == clamped(raw as int),
        0 <= r <= FULL_SCALE,
        0 <= raw <= FULL_SCALE ==> r == raw,
{
    if raw < 0 {
        0
    } else if raw > FULL_SCALE as i64 {
        FULL_SCALE
    } else {
        raw as u32
    }
}

} // verus!
