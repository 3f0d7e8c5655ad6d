//! Method-call sugar for the standard conversion traits.
//!
//! The [`To`] extension trait provides a [`to`](To::to) method and a
//! [`try_to`](To::try_to) method that invoke `Into::into` and
//! `TryInto::try_into` while naming the target type on the method itself,
//! so conversions read left to right: value, operation, target type.
//!
//! Both methods are pure forwarding calls: each one is specified to return
//! exactly what the underlying standard conversion returns, and nothing else.
//! A blanket implementation grants the trait to every type and keeps any
//! downstream implementation from redefining what "convert" means.

use vstd::prelude::*;
use vstd::std_specs::convert::IntoSpec;
use vstd::std_specs::convert::TryIntoSpec;

verus! {

/// Extension trait providing the [`to`](To::to) and [`try_to`](To::try_to) methods.
pub trait To {
    /// Converts to `T` by calling `Into<T>::into`.
    ///
    /// The result is exactly a result of invoking the underlying infallible
    /// conversion directly on `self`; where that conversion has a known
    /// specification, the result equals the specified value.
    fn to<T>(self) -> (r: T) where Self: Into<T>
        ensures
            call_ensures(<Self as Into<T>>::into, (self,), r),
            <Self as IntoSpec<T>>::obeys_into_spec() ==> r == <Self as IntoSpec<
                T,
            >>::into_spec(self),
    {
        <Self as Into<T>>::into(self)
    }

    /// Tries to convert to `T` by calling `TryInto<T>::try_into`.
    ///
    /// The result, success payload or failure payload, is exactly a result of
    /// invoking the underlying fallible conversion directly on `self`; where
    /// that conversion has a known specification, the result equals the
    /// specified value.
    fn try_to<T>(self) -> (r: Result<T, <Self as TryInto<T>>::Error>) where Self: TryInto<T>
        ensures
            call_ensures(<Self as TryInto<T>>::try_into, (self,), r),
            <Self as TryIntoSpec<T>>::obeys_try_into_spec() ==> r == <Self as TryIntoSpec<
                T,
            >>::try_into_spec(self),
    {
        <Self as TryInto<T>>::try_into(self)
    }
}

/// Blanket impl for all types.
/// This makes sure that everything implements `To` and
/// that no downstream impls can exist.
impl<T: ?Sized> To for T {}

/// Law: where a direct conversion exists and agrees, at the specification
/// level, with converting in two steps, chaining two infallible conversions
/// yields the same result as the single direct conversion.
pub proof fn lemma_chained_conversion<A, B, C>(v: A, step: B, chained: C, direct: C) where
    A: Into<B> + Into<C>,
    B: Into<C>,

    requires
        <A as IntoSpec<B>>::obeys_into_spec(),
        <B as IntoSpec<C>>::obeys_into_spec(),
        <A as IntoSpec<C>>::obeys_into_spec(),
        <B as IntoSpec<C>>::into_spec(<A as IntoSpec<B>>::into_spec(v)) == <A as IntoSpec<
            C,
        >>::into_spec(v),
        call_ensures(<A as Into<B>>::into, (v,), step),
        call_ensures(<B as Into<C>>::into, (step,), chained),
        call_ensures(<A as Into<C>>::into, (v,), direct),
    ensures
        chained == direct,
{
}

/// Law (part): the fallible conversion of a value to its own type always
/// succeeds. Any result of the fallible conversion `TryInto<T>` on a value
/// of type `T` is `Ok`.
pub proof fn lemma_try_to_self_succeeds<T>(v: T, r: Result<T, <T as TryInto<T>>::Error>)
    requires
        call_ensures(<T as TryInto<T>>::try_into, (v,), r),
    ensures
        r.is_ok(),
{
}

} // verus!
