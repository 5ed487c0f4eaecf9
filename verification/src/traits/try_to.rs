//! A functional replacement for the standard `TryInto`: the target type
//! stands on the method, `value.try_to::<Target>()`.

use vstd::prelude::*;
use vstd::std_specs::convert::TryIntoSpec;

verus! {

/// Fallible conversion into a chosen target through the standard `TryInto`.
pub trait TryTo {
    /// Exactly what the standard `try_into` returns, wherever the standard
    /// library's conversion has a specification.
    fn try_to<T>(self) -> (r: Result<T, <Self as core::convert::TryInto<T>>::Error>) where
        Self: core::convert::TryInto<T>
        ensures
            <Self as TryIntoSpec<T>>::obeys_try_into_spec() ==> r == <Self as TryIntoSpec<
                T,
            >>::try_into_spec(self),
    ;
}

impl<S> TryTo for S {
    fn try_to<T>(self) -> (r: Result<T, <Self as core::convert::TryInto<T>>::Error>) where
        Self: core::convert::TryInto<T>
    {
        core::convert::TryInto::try_into(self)
    }
}

} // verus!
