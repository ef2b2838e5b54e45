use algebra_laws::addition::{I64Additive, StandardAddition};
use algebra_laws::equalities::{ModularI64Equiv, StandardEquality};
use algebra_laws::instances::{CrossSum, Pair, StandardSubtraction, UnorderedEquality};
use algebra_laws::operation::{Associative, Commutative, HasIdentity, HasInverses, OpBinaryHetero};
use algebra_laws::relation::{Equivalence, Reflexive, Symmetric, Transitive};
use algebra_laws::setoid::Setoid;
use algebra_laws::structure::{GroupAbelian, GroupAbelianOp, Monoid, MonoidOp};
use algebra_laws::wrapper::MagmaWrapper;

type Add = StandardAddition<i64, i64>;
type Eq64 = StandardEquality<i64>;
type Mod5 = ModularI64Equiv<5>;

const SAMPLES: [i64; 9] = [0, 1, -1, 2, 5, -7, 1000, i64::MAX, i64::MIN];

#[test]
fn structural_equality_laws_hold_on_samples() {
    for &a in SAMPLES.iter() {
        assert!(<Eq64 as Reflexive>::check(&a));
        for &b in SAMPLES.iter() {
            assert!(<Eq64 as Symmetric>::check(&a, &b));
            for &c in SAMPLES.iter() {
                assert!(<Eq64 as Transitive>::check(&a, &b, &c));
                assert!(<Eq64 as Equivalence>::check(&a, &b, &c));
            }
        }
    }
    assert!(<StandardEquality<bool> as Equivalence>::check(&true, &false, &true));
    assert!(<StandardEquality<char> as Equivalence>::check(&'a', &'a', &'b'));
}

#[test]
fn structural_equality_relates_only_equal_values() {
    assert!(Eq64::apply(4, 4));
    assert!(!Eq64::apply(4, 5));
}

#[test]
fn modular_congruence_mod_five() {
    assert!(Mod5::apply(7, 12));
    assert!(!Mod5::apply(7, 13));
}

#[test]
fn modular_congruence_holds_across_signs() {
    assert!(Mod5::apply(-3, -8));
    assert!(Mod5::apply(-3, 2));
    assert!(Mod5::apply(2, -3));
    assert!(!Mod5::apply(-3, 3));
    assert!(Mod5::apply(0, 10));
    assert!(Mod5::apply(0, -10));
    assert!(Mod5::apply(i64::MIN, i64::MIN));
    assert!(Mod5::apply(i64::MAX, 2));
    assert!(Mod5::apply(i64::MIN, 2));
    assert!(Mod5::apply(i64::MIN, i64::MAX));
    assert!(!Mod5::apply(i64::MIN, 0));
}

#[test]
fn modular_congruence_with_zero_modulus_is_equality() {
    assert!(ModularI64Equiv::<0>::apply(4, 4));
    assert!(!ModularI64Equiv::<0>::apply(4, 9));
}

#[test]
fn modular_congruence_with_huge_modulus() {
    assert!(!ModularI64Equiv::<{ u64::MAX }>::apply(-1, 1));
    assert!(ModularI64Equiv::<{ u64::MAX }>::apply(i64::MAX, i64::MIN));
    assert!(!ModularI64Equiv::<{ u64::MAX }>::apply(-1, i64::MAX));
    assert!(ModularI64Equiv::<{ u64::MAX }>::apply(i64::MIN, i64::MIN));
}

#[test]
fn modular_congruence_laws_hold_on_samples() {
    for &a in SAMPLES.iter() {
        for &b in SAMPLES.iter() {
            for &c in SAMPLES.iter() {
                assert!(<Mod5 as Equivalence>::check(&a, &b, &c));
            }
        }
    }
}

#[test]
fn addition_laws_hold_on_samples() {
    for &a in SAMPLES.iter() {
        assert!(<Add as HasIdentity<Eq64>>::check(&a));
        for &b in SAMPLES.iter() {
            assert!(<Add as Commutative<Eq64>>::check(&a, &b));
            for &c in SAMPLES.iter() {
                assert!(<Add as Associative<Eq64>>::check(&a, &b, &c));
            }
        }
    }
}

#[test]
fn addition_inverses_hold_on_samples() {
    for &a in SAMPLES.iter() {
        assert!(<Add as HasInverses<Eq64>>::check(&a));
    }
}

#[test]
fn addition_inverse_of_five() {
    assert_eq!(<Add as HasIdentity<Eq64>>::identity(), 0);
    assert_eq!(<Add as HasInverses<Eq64>>::inverse(5), -5);
    let w = |v: i64| MagmaWrapper::<Add, Eq64>::new(v);
    let five_inv = w(5).inv();
    assert_eq!(five_inv.value, -5);
    assert!(w(5).combine(five_inv).equiv(&w(0)));
    assert!(<Add as HasInverses<Eq64>>::check(&5));
}

#[test]
fn addition_wraps_at_the_ends() {
    assert_eq!(Add::apply(i64::MAX, 1), i64::MIN);
    assert_eq!(Add::apply(i64::MIN, -1), i64::MAX);
    assert_eq!(<Add as HasInverses<Eq64>>::inverse(i64::MIN), i64::MIN);
    assert_eq!(Add::apply(2, 3), 5);
}

#[test]
fn monoid_identity_round_trip() {
    let e = <Add as HasIdentity<Eq64>>::identity();
    for &a in SAMPLES.iter() {
        let w = |v: i64| MagmaWrapper::<Add, Eq64>::new(v);
        assert!(w(a).combine(w(e)).equiv(&w(a)));
        assert!(w(e).combine(w(a)).equiv(&w(a)));
    }
}

fn identity_round_trip<M: Monoid>(a: M::T) -> bool
where
    M::Op: MonoidOp<M::Equiv>,
    M::T: Copy,
{
    let e = <M::Op as HasIdentity<M::Equiv>>::identity();
    let w = |v: M::T| MagmaWrapper::<M::Op, M::Equiv>::new(v);
    w(a).combine(w(e)).equiv(&w(a)) && w(e).combine(w(a)).equiv(&w(a))
}

fn abelian_group_checks<G: GroupAbelian>(a: G::T, b: G::T, c: G::T) -> bool
where
    G::Op: GroupAbelianOp<G::Equiv>,
    G::T: Copy,
{
    <G::Op as Associative<G::Equiv>>::check(&a, &b, &c)
        && <G::Op as Commutative<G::Equiv>>::check(&a, &b)
        && <G::Op as HasInverses<G::Equiv>>::check(&a)
        && <G as Setoid>::check(&a, &b, &c)
}

#[test]
fn monoid_identity_round_trip_through_the_hierarchy() {
    for &a in SAMPLES.iter() {
        assert!(identity_round_trip::<I64Additive>(a));
    }
}

#[test]
fn abelian_group_passes_every_check() {
    for &a in SAMPLES.iter() {
        for &b in SAMPLES.iter() {
            assert!(abelian_group_checks::<I64Additive>(a, b, 3));
        }
    }
}

#[test]
fn setoid_uses_its_equivalence() {
    assert!(<I64Additive as Setoid>::eq(3, 3));
    assert!(!<I64Additive as Setoid>::eq(3, 4));
    assert!(<I64Additive as Setoid>::neq(3, 4));
    assert!(!<I64Additive as Setoid>::neq(3, 3));
    assert!(<I64Additive as Setoid>::check(&1, &2, &3));
}

#[test]
fn wrapper_combine_and_equiv() {
    let w = |v: i64| MagmaWrapper::<Add, Mod5>::new(v);
    assert_eq!(w(3).combine(w(4)).value, 7);
    assert!(w(3).combine(w(4)).equiv(&w(12)));
    assert!(!w(3).combine(w(4)).equiv(&w(13)));
}

#[test]
fn subtraction_is_not_associative() {
    assert!(!<StandardSubtraction as Associative<Eq64>>::check(&1, &2, &3));
    assert_eq!(StandardSubtraction::apply(1, StandardSubtraction::apply(2, 3)), 2);
    assert_eq!(StandardSubtraction::apply(StandardSubtraction::apply(1, 2), 3), -4);
    assert!(<StandardSubtraction as Associative<Eq64>>::check(&1, &0, &0));
}

#[test]
fn commutative_only_under_a_wider_equivalence() {
    let p = Pair { first: 1, second: 2 };
    let q = Pair { first: 3, second: 5 };
    assert_eq!(CrossSum::apply(p, q), Pair { first: 6, second: 5 });
    assert_eq!(CrossSum::apply(q, p), Pair { first: 5, second: 6 });
    assert!(<CrossSum as Commutative<UnorderedEquality>>::check(&p, &q));
    assert!(!<CrossSum as Commutative<StandardEquality<Pair>>>::check(&p, &q));
    assert!(UnorderedEquality::apply(p, Pair { first: 2, second: 1 }));
    assert!(!UnorderedEquality::apply(p, Pair { first: 2, second: 2 }));
}
