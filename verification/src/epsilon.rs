//! A trait for the smallest fraction a scalar type can tell apart from 1.

use vstd::prelude::*;

verus! {

/// A trait for finding the smallest fraction possible with a given scalar
/// type.
pub trait Epsilon: Sized {
    /// The type's epsilon value. It defaults to an unspecified value, so
    /// an implementation written outside verified code need not mention
    /// it.
    open spec fn epsilon_spec() -> Self {
        vstd::pervasive::arbitrary()
    }

    /// Return the difference between 1 and the next lowest value that
    /// follows 1.
    fn epsilon() -> (r: Self)
        ensures
            r == Self::epsilon_spec(),
    ;
}

/// A helper function for bypassing the Epsilon trait's namespace where the
/// Epsilon type can be inferred.
pub fn epsilon<F: Epsilon>() -> (r: F)
    ensures
        r == F::epsilon_spec(),
{
    F::epsilon()
}

} // verus!
