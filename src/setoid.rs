use vstd::prelude::*;
use crate::operation::OpBinaryHetero;
use crate::relation::{Equivalence, equivalence_at};

verus! {

/// A carrier type paired with the equivalence that serves as its equality.
pub trait Setoid {
    type T;
    type Equiv: Equivalence<T = Self::T>;

    /// Whether `a` and `b` are equal under the setoid's equivalence.
    fn eq(a: Self::T, b: Self::T) -> (r: bool)
        ensures
            r == Self::Equiv::spec_apply(a, b),
    {
        Self::Equiv::apply(a, b)
    }

    /// Whether `a` and `b` differ under the setoid's equivalence.
    fn neq(a: Self::T, b: Self::T) -> (r: bool)
        ensures
            r == !Self::Equiv::spec_apply(a, b),
    {
        !Self::Equiv::apply(a, b)
    }

    /// Tests the equivalence laws of the setoid's equivalence on `a`, `b`, `c`.
    fn check(a: &Self::T, b: &Self::T, c: &Self::T) -> (r: bool)
        where Self::T: Copy
        ensures
            r == equivalence_at::<Self::Equiv>(*a, *b, *c),
    {
        <Self::Equiv as Equivalence>::check(a, b, c)
    }
}

} // verus!
