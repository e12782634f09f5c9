//! A hint that a point in the code cannot be reached.
//!
//! [`unreachable_unchecked`] marks a branch as dead. Its precondition is the
//! absurd proposition, so Verus accepts a call only where the facts
//! that lead to it contradict each other: the branch is then proved dead
//! where it is written, not taken on trust.

use vstd::prelude::*;

pub mod example;
pub mod internals;

verus! {

/// Marks a point in the code that no execution reaches.
///
/// It takes no argument and stands for a value of any type, because it never
/// hands one back. The caller owes the proof that the call site is dead:
/// [`internals::absurd`] has to follow from what is known there.
///
/// Control does not come back from the call, so after it the absurd holds
/// again, and what the call stands for equals every placeholder of its type:
/// the program is the one that has any other expression in its place.
#[inline]
pub fn unreachable_unchecked<T>() -> (never: T)
    requires
        internals::absurd(),
    ensures
        internals::absurd(),
        forall|placeholder: T| #[trigger] internals::stands_for(never, placeholder),
{
    internals::__unreachable_unchecked()
}

} // verus!
