//! Reading one typed parameter out of a target.

use vstd::prelude::*;

verus! {

/// A target that determines a parameter of type `T`.
pub trait Param<T> {
    /// The parameter that the target determines.
    spec fn param_of(&self) -> T;

    /// The parameter that the target determines.
    fn param(&self) -> (p: T)
        ensures
            p == <Self as Param<T>>::param_of(self),
    ;
}

} // verus!
