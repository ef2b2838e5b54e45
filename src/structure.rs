use vstd::prelude::*;
use crate::operation::{
    Associative, Commutative, HasIdentity, HasInverses, OpBinary, OpBinaryHetero, associative_at,
    commutative_at, identity_at, inverse_at,
};
use crate::relation::Equivalence;
use crate::setoid::Setoid;

verus! {

/// A setoid with a closed binary operation over its carrier; no law is asked.
pub trait Magma: Setoid {
    type Op: OpBinary<T = Self::T>;
}

/// The laws a semigroup's operation declares under `E`.
pub trait SemigroupOp<E>: Associative<E> where E: Equivalence<T = <Self as OpBinary>::T> {

}

impl<O: Associative<E> + ?Sized, E: Equivalence<T = <O as OpBinary>::T>> SemigroupOp<E> for O {

}

/// The laws a monoid's operation declares under `E`.
pub trait MonoidOp<E>: SemigroupOp<E> + HasIdentity<E> where
    E: Equivalence<T = <Self as OpBinary>::T>,
 {

}

impl<
    O: Associative<E> + HasIdentity<E> + ?Sized,
    E: Equivalence<T = <O as OpBinary>::T>,
> MonoidOp<E> for O {

}

/// The laws a group's operation declares under `E`.
pub trait GroupOp<E>: MonoidOp<E> + HasInverses<E> where
    E: Equivalence<T = <Self as OpBinary>::T>,
 {

}

impl<
    O: Associative<E> + HasInverses<E> + ?Sized,
    E: Equivalence<T = <O as OpBinary>::T>,
> GroupOp<E> for O {

}

/// The laws an abelian group's operation declares under `E`.
pub trait GroupAbelianOp<E>: GroupOp<E> + Commutative<E> where
    E: Equivalence<T = <Self as OpBinary>::T>,
 {

}

impl<
    O: Associative<E> + HasInverses<E> + Commutative<E> + ?Sized,
    E: Equivalence<T = <O as OpBinary>::T>,
> GroupAbelianOp<E> for O {

}

/// A magma whose operation is associative under the setoid's equivalence on
/// every element; an implementation proves it.
pub trait Semigroup: Magma where Self::Op: SemigroupOp<Self::Equiv> {
    proof fn lemma_associative(a: Self::T, b: Self::T, c: Self::T)
        ensures
            associative_at::<Self::Op, Self::Equiv>(a, b, c),
    ;
}

/// A semigroup whose operation has an identity under the same equivalence.
pub trait Monoid: Semigroup where Self::Op: MonoidOp<Self::Equiv> {
    proof fn lemma_identity(a: Self::T)
        ensures
            identity_at::<Self::Op, Self::Equiv>(
                a,
                <Self::Op as HasIdentity<Self::Equiv>>::spec_identity(),
            ),
    ;
}

/// A monoid whose operation has an inverse for every element under the same
/// equivalence.
pub trait Group: Monoid where Self::Op: GroupOp<Self::Equiv> {
    proof fn lemma_inverse(a: Self::T)
        ensures
            inverse_at::<Self::Op, Self::Equiv>(
                a,
                <Self::Op as HasInverses<Self::Equiv>>::spec_inverse(a),
                <Self::Op as HasIdentity<Self::Equiv>>::spec_identity(),
            ),
    ;
}

/// A group whose operation is also commutative under the same equivalence.
pub trait GroupAbelian: Group where Self::Op: GroupAbelianOp<Self::Equiv> {
    proof fn lemma_commutative(a: Self::T, b: Self::T)
        ensures
            commutative_at::<Self::Op, Self::Equiv>(a, b),
    ;
}

/// In every monoid, wrapping a value, combining it with the identity and
/// comparing the result with the value gives `true`, on either side.
pub proof fn lemma_identity_round_trip<M: Monoid>(a: M::T) where M::Op: MonoidOp<M::Equiv>
    ensures
        M::Equiv::spec_apply(
            M::Op::spec_apply(a, <M::Op as HasIdentity<M::Equiv>>::spec_identity()),
            a,
        ),
        M::Equiv::spec_apply(
            M::Op::spec_apply(<M::Op as HasIdentity<M::Equiv>>::spec_identity(), a),
            a,
        ),
{
    M::lemma_identity(a);
}

} // verus!
