//! Saturating time arithmetic.
//!
//! Times are carried as signed 64-bit counts: whole centiseconds inside the
//! state machines (the precision the in-game timer is rounded to), and
//! nanoseconds in the commands handed to the host timer. All arithmetic on
//! them saturates at the representable bounds, so no input read out of the
//! game can make a tick fail.
use vstd::prelude::*;

verus! {

/// Nanoseconds per centisecond.
pub const NANOS_PER_CENTI: i64 = 10_000_000;

/// Centiseconds per second.
pub const CENTIS_PER_SECOND: i64 = 100;

/// An arbitrary integer clamped into the signed 64-bit range.
pub open spec fn sat_i64(x: int) -> i64 {
    if x > i64::MAX {
        i64::MAX
    } else if x < i64::MIN {
        i64::MIN
    } else {
        x as i64
    }
}

/// Saturating addition of two signed 64-bit times.
pub fn sat_add_i64(a: i64, b: i64) -> (r: i64)
    ensures
        r == sat_i64(a + b),
{
    let wide: i128 = a as i128 + b as i128;
    if wide > i64::MAX as i128 {
        i64::MAX
    } else if wide < i64::MIN as i128 {
        i64::MIN
    } else {
        wide as i64
    }
}

/// Saturating subtraction of two signed 64-bit times.
pub fn sat_sub_i64(a: i64, b: i64) -> (r: i64)
    ensures
        r == sat_i64(a - b),
{
    let wide: i128 = a as i128 - b as i128;
    if wide > i64::MAX as i128 {
        i64::MAX
    } else if wide < i64::MIN as i128 {
        i64::MIN
    } else {
        wide as i64
    }
}

/// A centisecond count converted to nanoseconds, saturating.
pub open spec fn spec_centis_to_nanos(cs: i64) -> i64 {
    sat_i64(cs * NANOS_PER_CENTI)
}

/// Converts a centisecond count to the nanosecond count handed to the host
/// timer, saturating at the representable bounds.
pub fn centis_to_nanos(cs: i64) -> (r: i64)
    ensures
        r == spec_centis_to_nanos(cs),
{
    let wide: i128 = cs as i128 * 10_000_000i128;
    if wide > i64::MAX as i128 {
        i64::MAX
    } else if wide < i64::MIN as i128 {
        i64::MIN
    } else {
        wide as i64
    }
}

/// A bonus-time count in whole seconds converted to centiseconds, saturating.
pub open spec fn spec_bonus_centis(bonus_seconds: u64) -> i64 {
    sat_i64(bonus_seconds * CENTIS_PER_SECOND)
}

/// Converts a bonus-time sum in whole seconds to centiseconds, saturating.
pub fn bonus_centis(bonus_seconds: u64) -> (r: i64)
    ensures
        r == spec_bonus_centis(bonus_seconds),
{
    let wide: i128 = bonus_seconds as i128 * 100i128;
    if wide > i64::MAX as i128 {
        i64::MAX
    } else {
        wide as i64
    }
}

} // verus!
