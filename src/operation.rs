use vstd::prelude::*;
use crate::relation::Equivalence;
use crate::wrapper::MagmaWrapper;

verus! {

/// A pure function from two operands, possibly of different types, to a result.
pub trait OpBinaryHetero {
    type I1;
    type I2;
    type O;

    /// The value the operation gives on `a` and `b`.
    spec fn spec_apply(a: Self::I1, b: Self::I2) -> Self::O;

    fn apply(a: Self::I1, b: Self::I2) -> (r: Self::O)
        ensures
            r == Self::spec_apply(a, b),
    ;
}

/// A closed binary operation: both operands and the result share one carrier.
pub trait OpBinary: OpBinaryHetero where
    Self: OpBinaryHetero<I1 = <Self as OpBinary>::T>,
    Self: OpBinaryHetero<I2 = <Self as OpBinary>::T>,
    Self: OpBinaryHetero<O = <Self as OpBinary>::T>,
 {
    type T;
}

/// `a∘b` and `b∘a` are equivalent under `E`.
pub open spec fn commutative_at<O: OpBinary + ?Sized, E: Equivalence<T = O::T>>(
    a: O::T,
    b: O::T,
) -> bool {
    E::spec_apply(O::spec_apply(a, b), O::spec_apply(b, a))
}

/// `a∘(b∘c)` and `(a∘b)∘c` are equivalent under `E`.
pub open spec fn associative_at<O: OpBinary + ?Sized, E: Equivalence<T = O::T>>(
    a: O::T,
    b: O::T,
    c: O::T,
) -> bool {
    E::spec_apply(O::spec_apply(a, O::spec_apply(b, c)), O::spec_apply(O::spec_apply(a, b), c))
}

/// `e` leaves `a` unchanged under `E`, on either side.
pub open spec fn identity_at<O: OpBinary + ?Sized, E: Equivalence<T = O::T>>(
    a: O::T,
    e: O::T,
) -> bool {
    &&& E::spec_apply(O::spec_apply(a, e), a)
    &&& E::spec_apply(O::spec_apply(e, a), a)
}

/// `e` is an identity for `a`, and `a` combined with `inv`, on either side,
/// is equivalent to `e` under `E`.
pub open spec fn inverse_at<O: OpBinary + ?Sized, E: Equivalence<T = O::T>>(
    a: O::T,
    inv: O::T,
    e: O::T,
) -> bool {
    &&& identity_at::<O, E>(a, e)
    &&& E::spec_apply(O::spec_apply(a, inv), e)
    &&& E::spec_apply(O::spec_apply(inv, a), e)
}

/// An operation declared commutative under the equivalence `Equiv`.
pub trait Commutative<Equiv>: OpBinary where Equiv: Equivalence<T = <Self as OpBinary>::T> {
    /// Tests `a∘b ≡ b∘a` on the samples.
    fn check(a: &Self::T, b: &Self::T) -> (r: bool)
        where Self::T: Copy
        ensures
            r == commutative_at::<Self, Equiv>(*a, *b),
    {
        let w = |x: &Self::T| -> (r: MagmaWrapper<Self, Equiv>)
            ensures
                r.value == *x,
            { MagmaWrapper::<Self, Equiv>::new(*x) };
        w(a).combine(w(b)).equiv(&w(b).combine(w(a)))
    }
}

/// An operation declared associative under the equivalence `Equiv`.
pub trait Associative<Equiv>: OpBinary where Equiv: Equivalence<T = <Self as OpBinary>::T> {
    /// Tests `a∘(b∘c) ≡ (a∘b)∘c` on the samples.
    fn check(a: &Self::T, b: &Self::T, c: &Self::T) -> (r: bool)
        where Self::T: Copy
        ensures
            r == associative_at::<Self, Equiv>(*a, *b, *c),
    {
        let w = |x: &Self::T| -> (r: MagmaWrapper<Self, Equiv>)
            ensures
                r.value == *x,
            { MagmaWrapper::<Self, Equiv>::new(*x) };
        w(a).combine(w(b).combine(w(c))).equiv(&w(a).combine(w(b)).combine(w(c)))
    }
}

/// An operation with a distinguished identity element under `Equiv`.
pub trait HasIdentity<Equiv>: OpBinary where Equiv: Equivalence<T = <Self as OpBinary>::T> {
    /// The identity element.
    spec fn spec_identity() -> Self::T;

    fn identity() -> (r: Self::T)
        ensures
            r == Self::spec_identity(),
    ;

    /// Tests `a∘e ≡ a` and `e∘a ≡ a` on the sample, `e` the identity.
    fn check(a: &Self::T) -> (r: bool)
        where Self::T: Copy
        ensures
            r == identity_at::<Self, Equiv>(*a, Self::spec_identity()),
    {
        let w = |x: &Self::T| -> (r: MagmaWrapper<Self, Equiv>)
            ensures
                r.value == *x,
            { MagmaWrapper::<Self, Equiv>::new(*x) };
        let e = Self::identity();
        w(a).combine(w(&e)).equiv(&w(a)) && w(&e).combine(w(a)).equiv(&w(a))
    }
}

/// An operation with an identity and an inverse for every element under `Equiv`.
pub trait HasInverses<Equiv>: HasIdentity<Equiv> where
    Equiv: Equivalence<T = <Self as OpBinary>::T>,
 {
    /// The inverse of `a`.
    spec fn spec_inverse(a: Self::T) -> Self::T;

    fn inverse(a: Self::T) -> (r: Self::T)
        ensures
            r == Self::spec_inverse(a),
    ;

    /// Tests the identity law and `a∘a⁻¹ ≡ e`, `a⁻¹∘a ≡ e` on the sample.
    fn check(a: &Self::T) -> bool
        where Self::T: Copy
        returns
            inverse_at::<Self, Equiv>(*a, Self::spec_inverse(*a), Self::spec_identity()),
    {
        let w = |x: &Self::T| -> (r: MagmaWrapper<Self, Equiv>)
            ensures
                r.value == *x,
            { MagmaWrapper::<Self, Equiv>::new(*x) };
        let e = Self::identity();
        let i = Self::inverse(*a);
        <Self as HasIdentity<Equiv>>::check(a) && w(a).combine(w(&i)).equiv(&w(&e))
            && w(&i).combine(w(a)).equiv(&w(&e))
    }
}

} // verus!
