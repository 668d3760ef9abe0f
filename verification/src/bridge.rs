//! Lossless crossing between the 64-bit unsigned byte-offset domain and the
//! host's numeric domain, which represents integers exactly only up to
//! `MAX_SAFE_INTEGER`. A host value is modelled by what the offset logic reads
//! of it: whether it is a number at all, on which side of the representable
//! range it lies, and — when in range — its integer part and exactness.

use vstd::prelude::*;

verus! {

/// The largest integer the host numeric domain represents exactly (2^53 - 1).
pub const MAX_SAFE_INTEGER: u64 = 9007199254740991;

/// A host-domain numeric value, classified by what the offset logic reads of it.
#[derive(Clone, Copy, Debug, PartialEq, Eq, Structural)]
pub enum HostNumber {
    /// Not a number.
    Nan,
    /// A value below zero: finite negative, or negative infinity.
    BelowZero,
    /// A value above `MAX_SAFE_INTEGER`: too large to be exact, or positive infinity.
    AboveSafeMax,
    /// A value in `[0, MAX_SAFE_INTEGER]`: its integer part, and whether the
    /// value is exactly that integer.
    InRange { floor: u64, exact: bool },
}

/// What carrying an unsigned offset into the host domain yields: the exact
/// host integer when the offset is within the safe bound, nothing otherwise.
pub open spec fn spec_to_safe_number(x: u64) -> Option<HostNumber> {
    if x <= MAX_SAFE_INTEGER {
        Some(HostNumber::InRange { floor: x, exact: true })
    } else {
        None
    }
}

/// What carrying a host value back into the unsigned domain yields: its value
/// when it is exactly an integer within `[0, MAX_SAFE_INTEGER]`, nothing for a
/// value below zero, above the safe bound, non-integral, or not a number — a
/// non-integral value is never silently truncated.
pub open spec fn spec_from_safe_number(n: HostNumber) -> Option<u64> {
    match n {
        HostNumber::InRange { floor, exact } => if exact && floor <= MAX_SAFE_INTEGER {
            Some(floor)
        } else {
            None
        },
        _ => None,
    }
}

/// Converts an unsigned offset into the host domain only when the conversion
/// is lossless; no rounding is ever performed silently.
pub fn to_safe_number(x: u64) -> (r: Option<HostNumber>)
    ensures
        r == spec_to_safe_number(x),
{
    if x <= MAX_SAFE_INTEGER {
        Some(HostNumber::InRange { floor: x, exact: true })
    } else {
        None
    }
}

/// Converts a host value back into the unsigned domain only when the
/// conversion is lossless: the value must be exactly an integer within
/// `[0, MAX_SAFE_INTEGER]`. A value below zero, above the bound, non-integral,
/// or not a number converts to nothing; no truncation is ever performed
/// silently.
pub fn from_safe_number(n: &HostNumber) -> (r: Option<u64>)
    ensures
        r == spec_from_safe_number(*n),
{
    match n {
        HostNumber::InRange { floor, exact } => if *exact && *floor <= MAX_SAFE_INTEGER {
            Some(*floor)
        } else {
            None
        },
        _ => None,
    }
}

/// Round-trip precision: an offset within the safe bound crosses into the host
/// domain and back unchanged, and an offset above the bound is refused outright.
pub proof fn lemma_round_trip(x: u64)
    ensures
        x <= MAX_SAFE_INTEGER ==> (spec_to_safe_number(x) matches Some(n)
            && spec_from_safe_number(n) == Some(x)),
        x > MAX_SAFE_INTEGER ==> spec_to_safe_number(x) is None,
{
}

} // verus!
