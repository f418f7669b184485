//! Units shared by the whole crate.
//!
//! A fan speed is an `i32` counting thousandths of a percent, so `42_500`
//! stands for 42.5 %. A sensor sample is an `i32` counting thousandths of a
//! degree Celsius, the unit in which the kernel reports temperatures. The
//! control rules compare whole degrees held in a `u8`.

use vstd::prelude::*;

verus! {

/// Number of speed units in one percent.
pub const PERCENT_SCALE: i32 = 1000;

/// The speed of a fan that runs at its maximum: 100 %.
pub const FULL_SPEED: i32 = 100_000;

/// Number of sample units in one degree Celsius.
pub const DEGREE_SCALE: i32 = 1000;

/// `value` limited to the closed interval from `low` to `high`.
pub open spec fn clamp_int(value: int, low: int, high: int) -> int {
    if value < low {
        low
    } else if value > high {
        high
    } else {
        value
    }
}

/// A speed limited to the range from 0 % to 100 %.
pub open spec fn clamp_speed_spec(speed: i32) -> i32 {
    clamp_int(speed as int, 0, FULL_SPEED as int) as i32
}

/// Whether a speed lies between 0 % and 100 %, both included.
pub open spec fn speed_in_bounds(speed: i32) -> bool {
    0 <= speed <= FULL_SPEED
}

/// The whole degrees in a sample: the sample divided by a thousand, rounded
/// towards zero, and limited to what a `u8` holds.
pub open spec fn whole_degrees_spec(millidegrees: i32) -> u8 {
    if millidegrees <= 0 {
        0u8
    } else {
        clamp_int(millidegrees as int / DEGREE_SCALE as int, 0, 255) as u8
    }
}

/// Limits a speed to the range from 0 % to 100 %.
pub fn clamp_speed(speed: i32) -> (clamped: i32)
    ensures
        clamped == clamp_speed_spec(speed),
        speed_in_bounds(clamped),
        speed_in_bounds(speed) ==> clamped == speed,
{
    if speed < 0 {
        0
    } else if speed > FULL_SPEED {
        FULL_SPEED
    } else {
        speed
    }
}

/// Tells whether a speed lies between 0 % and 100 %.
pub fn is_speed_in_bounds(speed: i32) -> (inside: bool)
    ensures
        inside == speed_in_bounds(speed),
{
    0 <= speed && speed <= FULL_SPEED
}

/// Converts a sample in thousandths of a degree to whole degrees. Samples
/// below zero give 0 and samples of 255 degrees or more give 255.
pub fn whole_degrees(millidegrees: i32) -> (degrees: u8)
    ensures
        degrees == whole_degrees_spec(millidegrees),
{
    if millidegrees <= 0 {
        0
    } else {
        let whole: i32 = millidegrees / DEGREE_SCALE;
        if whole > 255 {
            255
        } else {
            whole as u8
        }
    }
}

} // verus!
