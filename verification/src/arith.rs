//! Overflow-checked addition of a signed offset to an unsigned 64-bit base.
//! This is the arithmetic every relative seek rests on, so its overflow rule is
//! stated exactly: the flag is raised precisely when the mathematical sum
//! leaves the unsigned 64-bit range, in either direction.

use vstd::prelude::*;

verus! {

/// True when the mathematical sum `lhs + rhs` fits the unsigned 64-bit range.
pub open spec fn signed_sum_in_range(lhs: u64, rhs: i64) -> bool {
    0 <= lhs + rhs <= u64::MAX
}

/// Adds a signed offset to an unsigned base, wrapping modulo 2^64, and reports
/// whether the mathematical sum left the unsigned range (overflow upward or a
/// negative result).
pub fn overflowing_add_signed(lhs: u64, rhs: i64) -> (r: (u64, bool))
    ensures
        r.1 == !signed_sum_in_range(lhs, rhs),
        signed_sum_in_range(lhs, rhs) ==> r.0 == lhs + rhs,
        lhs + rhs < 0 ==> r.0 == lhs + rhs + 0x1_0000_0000_0000_0000,
        lhs + rhs > u64::MAX ==> r.0 == lhs + rhs - 0x1_0000_0000_0000_0000,
{
    if rhs >= 0 {
        let ru: u64 = rhs as u64;
        if lhs <= u64::MAX - ru {
            (lhs + ru, false)
        } else {
            ((lhs - (u64::MAX - ru)) - 1, true)
        }
    } else {
        let mag: u64 = if rhs == i64::MIN {
            0x8000_0000_0000_0000
        } else {
            (-rhs) as u64
        };
        if lhs >= mag {
            (lhs - mag, false)
        } else {
            ((lhs + (u64::MAX - mag)) + 1, true)
        }
    }
}

/// Adds a signed offset to an unsigned base; the sum when it fits the unsigned
/// 64-bit range, and nothing otherwise.
pub fn checked_add_signed(lhs: u64, rhs: i64) -> (r: Option<u64>)
    ensures
        signed_sum_in_range(lhs, rhs) ==> r == Some((lhs + rhs) as u64),
        !signed_sum_in_range(lhs, rhs) ==> r is None,
{
    let (a, b) = overflowing_add_signed(lhs, rhs);
    if b {
        None
    } else {
        Some(a)
    }
}

} // verus!
