use vstd::prelude::*;
use crate::operation::{HasInverses, OpBinary, OpBinaryHetero};
use crate::relation::Equivalence;

verus! {

/// A sample value bound to an operation `O` and an equivalence `E` over the
/// same carrier, so that a law reads as an equality between expressions:
/// `combine` applies `O`, `equiv` compares under `E`.
pub struct MagmaWrapper<O: OpBinary + ?Sized, E: Equivalence<T = O::T>> {
    pub value: O::T,
    pub phantom: core::marker::PhantomData<E>,
}

impl<O: OpBinary + ?Sized, E: Equivalence<T = O::T>> MagmaWrapper<O, E> {
    /// Wraps `v`.
    pub fn new(v: O::T) -> (r: Self)
        ensures
            r.value == v,
    {
        MagmaWrapper { value: v, phantom: core::marker::PhantomData }
    }

    /// Wraps the inverse of the held value.
    pub fn inv(self) -> (r: Self)
        where O: HasInverses<E>
        ensures
            r.value == O::spec_inverse(self.value),
    {
        Self::new(O::inverse(self.value))
    }

    /// Wraps the operation applied to the two held values.
    pub fn combine(self, other: Self) -> (r: Self)
        ensures
            r.value == O::spec_apply(self.value, other.value),
    {
        Self::new(O::apply(self.value, other.value))
    }

    /// Whether the two held values are related by the equivalence.
    pub fn equiv(&self, other: &Self) -> (r: bool)
        where O::T: Copy
        ensures
            r == E::spec_apply(self.value, other.value),
    {
        E::apply(self.value, other.value)
    }
}

} // verus!
