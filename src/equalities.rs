use vstd::prelude::*;
use vstd::arithmetic::div_mod::{lemma_fundamental_div_mod, lemma_mod_multiples_basic};
use crate::operation::OpBinaryHetero;
use crate::relation::{
    Equivalence, Reflexive, Relation, Symmetric, Transitive, reflexive_at, symmetric_at,
    transitive_at,
};

verus! {

/// Types whose built-in `==` is identity of values.
pub trait IdentityEq: Eq + Sized {
    fn identical(a: &Self, b: &Self) -> (r: bool)
        ensures
            r == (*a == *b),
    ;
}

impl IdentityEq for bool {
    fn identical(a: &bool, b: &bool) -> (r: bool) {
        *a == *b
    }
}

impl IdentityEq for char {
    fn identical(a: &char, b: &char) -> (r: bool) {
        *a == *b
    }
}

impl IdentityEq for u8 {
    fn identical(a: &u8, b: &u8) -> (r: bool) {
        *a == *b
    }
}

impl IdentityEq for u32 {
    fn identical(a: &u32, b: &u32) -> (r: bool) {
        *a == *b
    }
}

impl IdentityEq for u64 {
    fn identical(a: &u64, b: &u64) -> (r: bool) {
        *a == *b
    }
}

impl IdentityEq for usize {
    fn identical(a: &usize, b: &usize) -> (r: bool) {
        *a == *b
    }
}

impl IdentityEq for i32 {
    fn identical(a: &i32, b: &i32) -> (r: bool) {
        *a == *b
    }
}

impl IdentityEq for i64 {
    fn identical(a: &i64, b: &i64) -> (r: bool) {
        *a == *b
    }
}

/// Structural equality: two values are related exactly when they are the same value.
pub struct StandardEquality<T: Eq> {
    pub phantom: core::marker::PhantomData<T>,
}

impl<T: IdentityEq> OpBinaryHetero for StandardEquality<T> {
    type I1 = T;
    type I2 = T;
    type O = bool;

    open spec fn spec_apply(a: T, b: T) -> bool {
        a == b
    }

    fn apply(a: T, b: T) -> (r: bool) {
        T::identical(&a, &b)
    }
}

impl<T: IdentityEq> Relation for StandardEquality<T> {
    type T = T;
}

impl<T: IdentityEq> Reflexive for StandardEquality<T> {

}

impl<T: IdentityEq> Symmetric for StandardEquality<T> {

}

impl<T: IdentityEq> Transitive for StandardEquality<T> {

}

impl<T: IdentityEq> Equivalence for StandardEquality<T> {
    proof fn lemma_reflexive(a: T) {
    }

    proof fn lemma_symmetric(a: T, b: T) {
    }

    proof fn lemma_transitive(a: T, b: T, c: T) {
    }
}

/// Structural equality passes the reflexivity, symmetry and transitivity
/// checks on any samples.
pub proof fn lemma_standard_equality_laws<T: IdentityEq>(a: T, b: T, c: T)
    ensures
        reflexive_at::<StandardEquality<T>>(a),
        symmetric_at::<StandardEquality<T>>(a, b),
        transitive_at::<StandardEquality<T>>(a, b, c),
{
}

/// `a` and `b` are congruent modulo `n`: `n` divides `a - b`. Modulo zero
/// only equal values are congruent.
pub open spec fn congruent(a: int, b: int, n: int) -> bool {
    if n == 0 {
        a == b
    } else {
        (a - b) % n == 0
    }
}

/// If `n` divides `x` and `y`, it divides their sum.
proof fn lemma_divides_sum(x: int, y: int, n: int)
    requires
        n > 0,
        x % n == 0,
        y % n == 0,
    ensures
        (x + y) % n == 0,
{
    lemma_fundamental_div_mod(x, n);
    lemma_fundamental_div_mod(y, n);
    assert(x + y == (x / n + y / n) * n) by (nonlinear_arith)
        requires
            x == n * (x / n) + x % n,
            y == n * (y / n) + y % n,
            x % n == 0,
            y % n == 0,
    ;
    lemma_mod_multiples_basic(x / n + y / n, n);
}

/// If `n` divides `x`, it divides `-x`.
proof fn lemma_divides_neg(x: int, n: int)
    requires
        n > 0,
        x % n == 0,
    ensures
        (-x) % n == 0,
{
    lemma_fundamental_div_mod(x, n);
    assert(-x == (-(x / n)) * n) by (nonlinear_arith)
        requires
            x == n * (x / n) + x % n,
            x % n == 0,
    ;
    lemma_mod_multiples_basic(-(x / n), n);
}

/// Congruence of `i64` values modulo `MODULUS`: two values are related when
/// `MODULUS` divides their difference, whatever their signs.
pub struct ModularI64Equiv<const MODULUS: u64>;

impl<const N: u64> OpBinaryHetero for ModularI64Equiv<N> {
    type I1 = i64;
    type I2 = i64;
    type O = bool;

    open spec fn spec_apply(a: i64, b: i64) -> bool {
        congruent(a as int, b as int, N as int)
    }

    fn apply(a: i64, b: i64) -> (r: bool) {
        if N == 0 {
            a == b
        } else {
            let n: i128 = N as i128;
            let d: i128 = (a as i128) - (b as i128);
            let r = d % n == 0;
            proof {
                if d < 0 {
                    if (-d) % (n as int) == 0 {
                        lemma_divides_neg(-d, n as int);
                    }
                    if (d as int) % (n as int) == 0 {
                        lemma_divides_neg(d as int, n as int);
                    }
                }
            }
            r
        }
    }
}

impl<const N: u64> Relation for ModularI64Equiv<N> {
    type T = i64;
}

impl<const N: u64> Reflexive for ModularI64Equiv<N> {

}

impl<const N: u64> Symmetric for ModularI64Equiv<N> {

}

impl<const N: u64> Transitive for ModularI64Equiv<N> {

}

impl<const N: u64> Equivalence for ModularI64Equiv<N> {
    proof fn lemma_reflexive(a: i64) {
        if N != 0 {
            lemma_mod_multiples_basic(0, N as int);
        }
    }

    proof fn lemma_symmetric(a: i64, b: i64) {
        if N != 0 {
            if (a - b) % (N as int) == 0 {
                lemma_divides_neg(a - b, N as int);
            }
            if (b - a) % (N as int) == 0 {
                lemma_divides_neg(b - a, N as int);
            }
        }
    }

    proof fn lemma_transitive(a: i64, b: i64, c: i64) {
        if N != 0 {
            lemma_divides_sum(a - b, b - c, N as int);
        }
    }
}

} // verus!
