use vstd::prelude::*;
use crate::addition::wrap_i64;
use crate::equalities::{IdentityEq, StandardEquality};
use crate::operation::{Associative, Commutative, OpBinary, OpBinaryHetero, commutative_at};
use crate::relation::{Equivalence, Reflexive, Relation, Symmetric, Transitive};

verus! {

/// Two's-complement subtraction on `i64`, wrapping on overflow; it is not
/// associative, so its associativity check finds counter-examples.
pub struct StandardSubtraction;

impl OpBinaryHetero for StandardSubtraction {
    type I1 = i64;
    type I2 = i64;
    type O = i64;

    open spec fn spec_apply(a: i64, b: i64) -> i64 {
        wrap_i64(a - b) as i64
    }

    fn apply(a: i64, b: i64) -> (r: i64) {
        a.wrapping_sub(b)
    }
}

impl OpBinary for StandardSubtraction {
    type T = i64;
}

impl Associative<StandardEquality<i64>> for StandardSubtraction {

}

/// A record of two integer fields.
#[derive(Clone, Copy, Debug, PartialEq, Eq, Structural)]
pub struct Pair {
    pub first: i64,
    pub second: i64,
}

impl IdentityEq for Pair {
    fn identical(a: &Pair, b: &Pair) -> (r: bool) {
        *a == *b
    }
}

/// Combines two pairs crosswise: the first field of `a` with the second of
/// `b`, and the second of `a` with the first of `b`, each sum wrapping.
/// Swapping the operands swaps the fields of the result.
pub struct CrossSum;

impl OpBinaryHetero for CrossSum {
    type I1 = Pair;
    type I2 = Pair;
    type O = Pair;

    open spec fn spec_apply(a: Pair, b: Pair) -> Pair {
        Pair {
            first: wrap_i64(a.first + b.second) as i64,
            second: wrap_i64(a.second + b.first) as i64,
        }
    }

    fn apply(a: Pair, b: Pair) -> (r: Pair) {
        Pair { first: a.first.wrapping_add(b.second), second: a.second.wrapping_add(b.first) }
    }
}

impl OpBinary for CrossSum {
    type T = Pair;
}

/// Two pairs are related when they hold the same two values, in either order.
pub struct UnorderedEquality;

impl OpBinaryHetero for UnorderedEquality {
    type I1 = Pair;
    type I2 = Pair;
    type O = bool;

    open spec fn spec_apply(a: Pair, b: Pair) -> bool {
        (a.first == b.first && a.second == b.second) || (a.first == b.second && a.second
            == b.first)
    }

    fn apply(a: Pair, b: Pair) -> (r: bool) {
        (a.first == b.first && a.second == b.second) || (a.first == b.second && a.second
            == b.first)
    }
}

impl Relation for UnorderedEquality {
    type T = Pair;
}

impl Reflexive for UnorderedEquality {

}

impl Symmetric for UnorderedEquality {

}

impl Transitive for UnorderedEquality {

}

impl Equivalence for UnorderedEquality {
    proof fn lemma_reflexive(a: Pair) {
    }

    proof fn lemma_symmetric(a: Pair, b: Pair) {
    }

    proof fn lemma_transitive(a: Pair, b: Pair, c: Pair) {
    }
}

impl Commutative<UnorderedEquality> for CrossSum {

}

impl Commutative<StandardEquality<Pair>> for CrossSum {

}

/// The crosswise sum is commutative once field order is ignored, on any samples.
pub proof fn lemma_cross_sum_commutative_unordered(a: Pair, b: Pair)
    ensures
        commutative_at::<CrossSum, UnorderedEquality>(a, b),
{
}

} // verus!
