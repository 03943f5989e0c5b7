//! Saturating `i128` addition, as the policies count spending.
use vstd::prelude::*;

verus! {

/// `a + b`, saturating at the bounds of `i128`.
pub open spec fn saturating_add_i128(a: i128, b: i128) -> i128 {
    if a + b > i128::MAX {
        i128::MAX
    } else if a + b < i128::MIN {
        i128::MIN
    } else {
        (a + b) as i128
    }
}

/// `a + b` on `i128`, saturating at the numeric bounds instead of
/// overflowing (as std's `i128::saturating_add`).
pub fn saturating_add(a: i128, b: i128) -> (r: i128)
    ensures
        r == saturating_add_i128(a, b),
{
    match a.checked_add(b) {
        Some(v) => v,
        None => if b > 0 {
            i128::MAX
        } else {
            i128::MIN
        },
    }
}

} // verus!
