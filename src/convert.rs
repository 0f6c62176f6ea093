//! Conversions that may not have a result.
use vstd::prelude::*;

use crate::consistency::Consistency;
use crate::write_type::WriteType;

verus! {

/// A conversion from `T` that has no result for some values.
pub trait MaybeFrom<T>: Sized {
    /// The value for `value`, if there is one.
    fn maybe_from(value: T) -> Option<Self>;
}

/// The other direction of [`MaybeFrom`].
pub trait MaybeInto<T>: Sized {
    /// The value for `self`, if there is one.
    fn maybe_into(self) -> Option<T>;
}

impl<A, B: MaybeFrom<A>> MaybeInto<B> for A {
    fn maybe_into(self) -> Option<B> {
        B::maybe_from(self)
    }
}

impl MaybeFrom<u32> for Consistency {
    /// The level of a native consistency code.
    fn maybe_from(value: u32) -> Option<Consistency> {
        Consistency::from_driver(value)
    }
}

impl MaybeFrom<u32> for WriteType {
    /// The write type of a native code.
    fn maybe_from(value: u32) -> Option<WriteType> {
        WriteType::from_driver(value)
    }
}

} // verus!
