use vstd::prelude::*;
use crate::operation::OpBinaryHetero;

verus! {

/// A boolean-valued operation on two operands of one carrier type.
pub trait Relation: OpBinaryHetero where
    Self: OpBinaryHetero<I1 = <Self as Relation>::T>,
    Self: OpBinaryHetero<I2 = <Self as Relation>::T>,
    Self: OpBinaryHetero<O = bool>,
 {
    type T;
}

/// `a` is related to itself.
pub open spec fn reflexive_at<R: Relation + ?Sized>(a: R::T) -> bool {
    R::spec_apply(a, a)
}

/// The relation gives the same answer on `(a, b)` and on `(b, a)`.
pub open spec fn symmetric_at<R: Relation + ?Sized>(a: R::T, b: R::T) -> bool {
    R::spec_apply(a, b) == R::spec_apply(b, a)
}

/// If `a` is related to `b` and `b` to `c`, then `a` is related to `c`.
pub open spec fn transitive_at<R: Relation + ?Sized>(a: R::T, b: R::T, c: R::T) -> bool {
    R::spec_apply(a, b) && R::spec_apply(b, c) ==> R::spec_apply(a, c)
}

/// The three equivalence laws on the samples `a`, `b`, `c`.
pub open spec fn equivalence_at<R: Relation + ?Sized>(a: R::T, b: R::T, c: R::T) -> bool {
    &&& reflexive_at::<R>(a)
    &&& symmetric_at::<R>(a, b)
    &&& transitive_at::<R>(a, b, c)
}

pub trait Symmetric: Relation {
    /// Tests symmetry on the samples `a` and `b`.
    fn check(a: &Self::T, b: &Self::T) -> (r: bool)
        where Self::T: Copy
        ensures
            r == symmetric_at::<Self>(*a, *b),
    {
        Self::apply(*a, *b) == Self::apply(*b, *a)
    }
}

pub trait Reflexive: Relation {
    /// Tests reflexivity on the sample `a`.
    fn check(a: &Self::T) -> (r: bool)
        where Self::T: Copy
        ensures
            r == reflexive_at::<Self>(*a),
    {
        Self::apply(*a, *a)
    }
}

pub trait Transitive: Relation {
    /// Tests transitivity on the samples `a`, `b`, `c`; true whenever the
    /// premise fails.
    fn check(a: &Self::T, b: &Self::T, c: &Self::T) -> (r: bool)
        where Self::T: Copy
        ensures
            r == transitive_at::<Self>(*a, *b, *c),
    {
        if Self::apply(*a, *b) && Self::apply(*b, *c) {
            Self::apply(*a, *c)
        } else {
            true
        }
    }
}

/// A relation that is reflexive, symmetric and transitive on every element of
/// its carrier; an implementation proves the three laws.
pub trait Equivalence: Symmetric + Reflexive + Transitive {
    proof fn lemma_reflexive(a: Self::T)
        ensures
            Self::spec_apply(a, a),
    ;

    proof fn lemma_symmetric(a: Self::T, b: Self::T)
        ensures
            Self::spec_apply(a, b) == Self::spec_apply(b, a),
    ;

    proof fn lemma_transitive(a: Self::T, b: Self::T, c: Self::T)
        requires
            Self::spec_apply(a, b),
            Self::spec_apply(b, c),
        ensures
            Self::spec_apply(a, c),
    ;

    /// Tests all three laws on the samples `a`, `b`, `c`.
    fn check(a: &Self::T, b: &Self::T, c: &Self::T) -> bool
        where Self::T: Copy
        returns
            equivalence_at::<Self>(*a, *b, *c),
    {
        <Self as Reflexive>::check(a) && <Self as Symmetric>::check(a, b)
            && <Self as Transitive>::check(a, b, c)
    }
}

/// Every equivalence passes its own check on any samples.
pub proof fn lemma_equivalence_check_holds<E: Equivalence>(a: E::T, b: E::T, c: E::T)
    ensures
        equivalence_at::<E>(a, b, c),
{
    E::lemma_reflexive(a);
    E::lemma_symmetric(a, b);
    if E::spec_apply(a, b) && E::spec_apply(b, c) {
        E::lemma_transitive(a, b, c);
    }
}

} // verus!
