use vstd::prelude::*;
use crate::equalities::StandardEquality;
use crate::operation::{
    Associative, Commutative, HasIdentity, HasInverses, OpBinary, OpBinaryHetero, associative_at,
    commutative_at, identity_at, inverse_at,
};
use crate::setoid::Setoid;
use crate::structure::{GroupAbelian, Group, Magma, Monoid, Semigroup};

verus! {

/// `x` brought into the range of `i64` by adding or taking away 2^64 once,
/// which suffices for a sum or a negation of `i64` values.
pub open spec fn wrap_i64(x: int) -> int {
    if x > i64::MAX {
        x - 0x1_0000_0000_0000_0000
    } else if x < i64::MIN {
        x + 0x1_0000_0000_0000_0000
    } else {
        x
    }
}

/// Addition of `L` and `R`; on `i64` it is two's-complement addition, which
/// wraps on overflow.
pub struct StandardAddition<L, R> {
    pub phantom: core::marker::PhantomData<(L, R)>,
}

impl OpBinaryHetero for StandardAddition<i64, i64> {
    type I1 = i64;
    type I2 = i64;
    type O = i64;

    open spec fn spec_apply(a: i64, b: i64) -> i64 {
        wrap_i64(a + b) as i64
    }

    fn apply(a: i64, b: i64) -> (r: i64) {
        a.wrapping_add(b)
    }
}

impl OpBinary for StandardAddition<i64, i64> {
    type T = i64;
}

impl Commutative<StandardEquality<i64>> for StandardAddition<i64, i64> {

}

impl Associative<StandardEquality<i64>> for StandardAddition<i64, i64> {

}

impl HasIdentity<StandardEquality<i64>> for StandardAddition<i64, i64> {
    open spec fn spec_identity() -> i64 {
        0
    }

    fn identity() -> (r: i64) {
        0
    }
}

impl HasInverses<StandardEquality<i64>> for StandardAddition<i64, i64> {
    open spec fn spec_inverse(a: i64) -> i64 {
        wrap_i64(-a) as i64
    }

    fn inverse(a: i64) -> (r: i64) {
        0i64.wrapping_sub(a)
    }
}

/// Integer addition is commutative and associative, has identity `0`, and
/// has negation as inverse, under structural equality, on any samples.
pub proof fn lemma_addition_laws(a: i64, b: i64, c: i64)
    ensures
        associative_at::<StandardAddition<i64, i64>, StandardEquality<i64>>(a, b, c),
        commutative_at::<StandardAddition<i64, i64>, StandardEquality<i64>>(a, b),
        identity_at::<StandardAddition<i64, i64>, StandardEquality<i64>>(a, 0),
        inverse_at::<StandardAddition<i64, i64>, StandardEquality<i64>>(a, wrap_i64(-a) as i64, 0),
{
}

/// The `i64` values under structural equality and addition: an abelian group.
pub struct I64Additive;

impl Setoid for I64Additive {
    type T = i64;
    type Equiv = StandardEquality<i64>;
}

impl Magma for I64Additive {
    type Op = StandardAddition<i64, i64>;
}

impl Semigroup for I64Additive {
    proof fn lemma_associative(a: i64, b: i64, c: i64) {
        lemma_addition_laws(a, b, c);
    }
}

impl Monoid for I64Additive {
    proof fn lemma_identity(a: i64) {
        lemma_addition_laws(a, a, a);
    }
}

impl Group for I64Additive {
    proof fn lemma_inverse(a: i64) {
        lemma_addition_laws(a, a, a);
    }
}

impl GroupAbelian for I64Additive {
    proof fn lemma_commutative(a: i64, b: i64) {
        lemma_addition_laws(a, b, b);
    }
}

} // verus!
