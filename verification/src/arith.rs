//! Saturating fixed-point arithmetic.
//!
//! Account balances absorb additions that leave the representable
//! range instead of wrapping, mirroring how the external
//! floating-point form saturates at its extremes. The ledger's
//! overflow guard then detects a saturated balance by comparing the
//! post-operation value with the pre-operation one.

use vstd::prelude::*;

verus! {

/// Mathematical saturating addition, clamped to the `i64` range.
pub open spec fn sat_add(a: int, b: int) -> int {
    if a + b > i64::MAX as int {
        i64::MAX as int
    } else if a + b < i64::MIN as int {
        i64::MIN as int
    } else {
        a + b
    }
}

/// Mathematical saturating subtraction, clamped to the `i64` range.
pub open spec fn sat_sub(a: int, b: int) -> int {
    if a - b > i64::MAX as int {
        i64::MAX as int
    } else if a - b < i64::MIN as int {
        i64::MIN as int
    } else {
        a - b
    }
}

/// Saturating `i64` addition.
pub fn sat_add_i64(a: i64, b: i64) -> (r: i64)
    ensures
        r as int == sat_add(a as int, b as int),
{
    if b >= 0 {
        if a > i64::MAX - b {
            i64::MAX
        } else {
            a + b
        }
    } else {
        if a < i64::MIN - b {
            i64::MIN
        } else {
            a + b
        }
    }
}

/// Saturating `i64` subtraction.
pub fn sat_sub_i64(a: i64, b: i64) -> (r: i64)
    ensures
        r as int == sat_sub(a as int, b as int),
{
    if b >= 0 {
        if a < i64::MIN + b {
            i64::MIN
        } else {
            a - b
        }
    } else {
        if a > i64::MAX + b {
            i64::MAX
        } else {
            a - b
        }
    }
}

} // verus!
