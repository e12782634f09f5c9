//! What stands behind the hint: the empty type and the proposition that
//! nothing satisfies.

use vstd::prelude::*;

verus! {

/// A holder of a value of the empty type. No such value exists, so
/// executable code never holds an `InternalVoid` either.
pub struct InternalVoid {
    #[allow(dead_code)]
    inner: core::convert::Infallible,
}

/// The proposition that holds in no state of any program.
///
/// A caller can establish it only from a contradiction among the facts known
/// at its call site, that is, only where no execution arrives.
pub open spec fn absurd() -> bool {
    false
}

/// Whether `placeholder` can stand where `never` stands and leave the program
/// what it was: whether the two are one value.
pub open spec fn stands_for<T>(never: T, placeholder: T) -> bool {
    never == placeholder
}

/// The hint itself, under its inner name; the contract is that of
/// [`unreachable_unchecked`](crate::unreachable_unchecked).
pub fn __unreachable_unchecked<T>() -> (never: T)
    requires
        absurd(),
    ensures
        absurd(),
        forall|placeholder: T| #[trigger] stands_for(never, placeholder),
{
    unreached()
}

} // verus!
