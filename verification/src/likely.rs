//! # Branch prediction hints
//!
//! If you are sure that one branch is more likely to be taken than the
//! other, you can mark its condition with [`likely`] or [`unlikely`]. Both
//! give back the condition unchanged.

use vstd::prelude::*;

verus! {

/// Marks a condition that is likely to hold.
pub fn likely(b: bool) -> (r: bool)
    ensures
        r == b,
{
    b
}

/// Marks a condition that is unlikely to hold.
pub fn unlikely(b: bool) -> (r: bool)
    ensures
        r == b,
{
    b
}

} // verus!
