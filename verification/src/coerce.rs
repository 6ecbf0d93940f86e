//! Coercion of unsigned telemetry values into the signed storage widths.
//!
//! Counters and durations arrive unsigned; the tables store signed columns.
//! A value that does not fit is stored as the largest value of the column
//! (saturation) and is never wrapped; `fits_i64` and `fits_i32` tell
//! whether a value is stored as it is.

use vstd::prelude::*;

verus! {

/// The value of a 64-bit signed column that stores the unsigned value `x`.
pub open spec fn stored_i64(x: u64) -> i64 {
    if x <= i64::MAX {
        x as i64
    } else {
        i64::MAX
    }
}

/// The value of a 32-bit signed column that stores the unsigned count `x`.
pub open spec fn stored_i32(x: usize) -> i32 {
    if x <= i32::MAX {
        x as i32
    } else {
        i32::MAX
    }
}

/// Stores an unsigned 64-bit counter in a signed 64-bit column, saturating.
pub fn counter_to_i64(x: u64) -> (r: i64)
    ensures
        r == stored_i64(x),
{
    if x <= 0x7fff_ffff_ffff_ffffu64 {
        x as i64
    } else {
        i64::MAX
    }
}

/// Stores an unsigned count in a signed 32-bit column, saturating.
pub fn count_to_i32(x: usize) -> (r: i32)
    ensures
        r == stored_i32(x),
{
    if x <= 0x7fff_ffffusize {
        x as i32
    } else {
        i32::MAX
    }
}

/// Whether a 64-bit signed column stores the counter `x` as it is.
pub fn fits_i64(x: u64) -> (r: bool)
    ensures
        r == (x <= i64::MAX),
        r == (stored_i64(x) == x),
{
    x <= 0x7fff_ffff_ffff_ffffu64
}

/// Whether a 32-bit signed column stores the count `x` as it is.
pub fn fits_i32(x: usize) -> (r: bool)
    ensures
        r == (x <= i32::MAX),
        r == (stored_i32(x) == x),
{
    x <= 0x7fff_ffffusize
}

/// The storage key that a path id names.  Keys are 32-bit signed, so a
/// larger path id names no profile.
pub fn profile_id_to_key(id: u32) -> (r: Option<i32>)
    ensures
        r == (if id <= i32::MAX { Some(id as i32) } else { None }),
{
    if id <= 0x7fff_ffffu32 {
        Some(id as i32)
    } else {
        None
    }
}

} // verus!
