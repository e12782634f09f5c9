//! The hint at work: a division whose failing branch is proved dead.

use vstd::prelude::*;
use crate::unreachable_unchecked;

verus! {

/// The divisor that [`div`] uses for `b`: one more than `b`, held at the
/// largest `u32` where `b` is already that. It is never zero.
pub open spec fn divisor(b: u32) -> int {
    if b == u32::MAX {
        u32::MAX as int
    } else {
        b + 1
    }
}

/// Divides `a` by the saturating successor of `b`.
///
/// The checked division has no result only for a divisor of zero, which the
/// successor never is: that branch holds the hint, and is proved dead.
pub fn div(a: u32, b: u32) -> (quotient: u32)
    ensures
        quotient == a as int / divisor(b),
{
    match a.checked_div(b.saturating_add(1)) {
        Some(quotient) => quotient,
        None => unreachable_unchecked(),
    }
}

} // verus!
