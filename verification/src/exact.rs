//! Exact arithmetic: the laws that the machine integers obey wherever their
//! operators do not overflow, stated so that proofs about vectors can rely on
//! them for any element type that obeys them.

use crate::num_traits::{lemma_integer_identities, One, Zero};
use std::ops::{Add, Div, Mul, Neg, Sub};
use vstd::prelude::*;
use vstd::std_specs::ops::{AddSpec, DivSpec, MulSpec, NegSpec, SubSpec};

verus! {

/// A type whose `+`, `-`, `*` and `/` are exact: wherever an operation is
/// permitted it computes what its spec function says, and the results obey
/// the laws of integer arithmetic stated here.
pub trait ExactArithmetic:
    Zero
    + One
    + Add<Output = Self>
    + Sub<Output = Self>
    + Mul<Output = Self>
    + Div<Output = Self>
    + Copy
{
    /// The four operators compute what `add_spec`, `sub_spec`, `mul_spec` and
    /// `div_spec` say.
    proof fn lemma_obeys_specs()
        ensures
            Self::obeys_add_spec(),
            Self::obeys_sub_spec(),
            Self::obeys_mul_spec(),
            Self::obeys_div_spec(),
    ;

    /// Addition is commutative, and permitted in one order where it is
    /// permitted in the other.
    proof fn lemma_add_commutative(x: Self, y: Self)
        ensures
            x.add_req(y) <==> y.add_req(x),
            x.add_spec(y) == y.add_spec(x),
    ;

    /// Addition is associative: where `(x + y) + z` and `y + z` are
    /// permitted, so is `x + (y + z)`, and the two sums are the same.
    proof fn lemma_add_associative(x: Self, y: Self, z: Self)
        requires
            x.add_req(y),
            x.add_spec(y).add_req(z),
            y.add_req(z),
        ensures
            x.add_req(y.add_spec(z)),
            x.add_spec(y).add_spec(z) == x.add_spec(y.add_spec(z)),
    ;

    /// Adding `ZERO` is always permitted and changes nothing.
    proof fn lemma_add_zero(x: Self)
        ensures
            x.add_req(Self::ZERO),
            x.add_spec(Self::ZERO) == x,
    ;

    /// Subtracting a value from itself is always permitted and gives `ZERO`.
    proof fn lemma_sub_self(x: Self)
        ensures
            x.sub_req(x),
            x.sub_spec(x) == Self::ZERO,
    ;

    /// Dividing a product by the factor it was multiplied by, if that is not
    /// `ZERO`, is permitted and gives the other factor back.
    proof fn lemma_mul_div_cancel(x: Self, s: Self)
        requires
            s != Self::ZERO,
            x.mul_req(s),
        ensures
            x.mul_spec(s).div_req(s),
            x.mul_spec(s).div_spec(s) == x,
    ;

    /// `ONE` may be multiplied by `ZERO`, and the product is `ZERO`.
    proof fn lemma_one_mul_zero()
        ensures
            Self::ONE.mul_req(Self::ZERO),
            Self::ONE.mul_spec(Self::ZERO) == Self::ZERO,
    ;

    /// Multiplication distributes over addition.
    proof fn lemma_mul_distributes(x: Self, y: Self, s: Self)
        requires
            x.add_req(y),
            x.add_spec(y).mul_req(s),
            x.mul_req(s),
            y.mul_req(s),
        ensures
            x.mul_spec(s).add_req(y.mul_spec(s)),
            x.add_spec(y).mul_spec(s) == x.mul_spec(s).add_spec(y.mul_spec(s)),
    ;
}

/// A type whose negation is exact.
pub trait ExactNegation: Neg<Output = Self> + Copy {
    /// Negation computes what `neg_spec` says.
    proof fn lemma_obeys_spec()
        ensures
            Self::obeys_neg_spec(),
    ;

    /// The negation of a value may be negated again, which gives the value back.
    proof fn lemma_neg_involutive(x: Self)
        requires
            x.neg_req(),
        ensures
            x.neg_spec().neg_req(),
            x.neg_spec().neg_spec() == x,
    ;
}

/// A product divided by a factor of it that is not zero is the other factor.
proof fn lemma_quotient_of_product(x: int, s: int)
    requires
        s != 0,
    ensures
        (x * s) / s == x,
        ((-x) * s) == -(x * s),
{
    assert((x * s) / s == x) by (nonlinear_arith)
        requires
            s != 0,
    ;
    assert(((-x) * s) == -(x * s)) by (nonlinear_arith);
}

/// The product of a sum and a factor, term by term.
proof fn lemma_product_of_sum(x: int, y: int, s: int)
    ensures
        (x + y) * s == x * s + y * s,
{
    assert((x + y) * s == x * s + y * s) by (nonlinear_arith);
}

impl ExactArithmetic for i8 {
    proof fn lemma_obeys_specs() {
    }

    proof fn lemma_add_commutative(x: Self, y: Self) {
    }

    proof fn lemma_add_associative(x: Self, y: Self, z: Self) {
    }

    proof fn lemma_add_zero(x: Self) {
        lemma_integer_identities();
    }

    proof fn lemma_sub_self(x: Self) {
        lemma_integer_identities();
    }

    proof fn lemma_mul_div_cancel(x: Self, s: Self) {
        lemma_integer_identities();
        lemma_quotient_of_product(x as int, s as int);
        lemma_quotient_of_product(-(x as int), s as int);
    }

    proof fn lemma_one_mul_zero() {
        lemma_integer_identities();
    }

    proof fn lemma_mul_distributes(x: Self, y: Self, s: Self) {
        lemma_product_of_sum(x as int, y as int, s as int);
    }
}

impl ExactNegation for i8 {
    proof fn lemma_obeys_spec() {
    }

    proof fn lemma_neg_involutive(x: Self) {
    }
}

impl ExactArithmetic for i16 {
    proof fn lemma_obeys_specs() {
    }

    proof fn lemma_add_commutative(x: Self, y: Self) {
    }

    proof fn lemma_add_associative(x: Self, y: Self, z: Self) {
    }

    proof fn lemma_add_zero(x: Self) {
        lemma_integer_identities();
    }

    proof fn lemma_sub_self(x: Self) {
        lemma_integer_identities();
    }

    proof fn lemma_mul_div_cancel(x: Self, s: Self) {
        lemma_integer_identities();
        lemma_quotient_of_product(x as int, s as int);
        lemma_quotient_of_product(-(x as int), s as int);
    }

    proof fn lemma_one_mul_zero() {
        lemma_integer_identities();
    }

    proof fn lemma_mul_distributes(x: Self, y: Self, s: Self) {
        lemma_product_of_sum(x as int, y as int, s as int);
    }
}

impl ExactNegation for i16 {
    proof fn lemma_obeys_spec() {
    }

    proof fn lemma_neg_involutive(x: Self) {
    }
}

impl ExactArithmetic for i32 {
    proof fn lemma_obeys_specs() {
    }

    proof fn lemma_add_commutative(x: Self, y: Self) {
    }

    proof fn lemma_add_associative(x: Self, y: Self, z: Self) {
    }

    proof fn lemma_add_zero(x: Self) {
        lemma_integer_identities();
    }

    proof fn lemma_sub_self(x: Self) {
        lemma_integer_identities();
    }

    proof fn lemma_mul_div_cancel(x: Self, s: Self) {
        lemma_integer_identities();
        lemma_quotient_of_product(x as int, s as int);
        lemma_quotient_of_product(-(x as int), s as int);
    }

    proof fn lemma_one_mul_zero() {
        lemma_integer_identities();
    }

    proof fn lemma_mul_distributes(x: Self, y: Self, s: Self) {
        lemma_product_of_sum(x as int, y as int, s as int);
    }
}

impl ExactNegation for i32 {
    proof fn lemma_obeys_spec() {
    }

    proof fn lemma_neg_involutive(x: Self) {
    }
}

impl ExactArithmetic for i64 {
    proof fn lemma_obeys_specs() {
    }

    proof fn lemma_add_commutative(x: Self, y: Self) {
    }

    proof fn lemma_add_associative(x: Self, y: Self, z: Self) {
    }

    proof fn lemma_add_zero(x: Self) {
        lemma_integer_identities();
    }

    proof fn lemma_sub_self(x: Self) {
        lemma_integer_identities();
    }

    proof fn lemma_mul_div_cancel(x: Self, s: Self) {
        lemma_integer_identities();
        lemma_quotient_of_product(x as int, s as int);
        lemma_quotient_of_product(-(x as int), s as int);
    }

    proof fn lemma_one_mul_zero() {
        lemma_integer_identities();
    }

    proof fn lemma_mul_distributes(x: Self, y: Self, s: Self) {
        lemma_product_of_sum(x as int, y as int, s as int);
    }
}

impl ExactNegation for i64 {
    proof fn lemma_obeys_spec() {
    }

    proof fn lemma_neg_involutive(x: Self) {
    }
}

impl ExactArithmetic for i128 {
    proof fn lemma_obeys_specs() {
    }

    proof fn lemma_add_commutative(x: Self, y: Self) {
    }

    proof fn lemma_add_associative(x: Self, y: Self, z: Self) {
    }

    proof fn lemma_add_zero(x: Self) {
        lemma_integer_identities();
    }

    proof fn lemma_sub_self(x: Self) {
        lemma_integer_identities();
    }

    proof fn lemma_mul_div_cancel(x: Self, s: Self) {
        lemma_integer_identities();
        lemma_quotient_of_product(x as int, s as int);
        lemma_quotient_of_product(-(x as int), s as int);
    }

    proof fn lemma_one_mul_zero() {
        lemma_integer_identities();
    }

    proof fn lemma_mul_distributes(x: Self, y: Self, s: Self) {
        lemma_product_of_sum(x as int, y as int, s as int);
    }
}

impl ExactNegation for i128 {
    proof fn lemma_obeys_spec() {
    }

    proof fn lemma_neg_involutive(x: Self) {
    }
}

impl ExactArithmetic for isize {
    proof fn lemma_obeys_specs() {
    }

    proof fn lemma_add_commutative(x: Self, y: Self) {
    }

    proof fn lemma_add_associative(x: Self, y: Self, z: Self) {
    }

    proof fn lemma_add_zero(x: Self) {
        lemma_integer_identities();
    }

    proof fn lemma_sub_self(x: Self) {
        lemma_integer_identities();
    }

    proof fn lemma_mul_div_cancel(x: Self, s: Self) {
        lemma_integer_identities();
        lemma_quotient_of_product(x as int, s as int);
        lemma_quotient_of_product(-(x as int), s as int);
    }

    proof fn lemma_one_mul_zero() {
        lemma_integer_identities();
    }

    proof fn lemma_mul_distributes(x: Self, y: Self, s: Self) {
        lemma_product_of_sum(x as int, y as int, s as int);
    }
}

impl ExactNegation for isize {
    proof fn lemma_obeys_spec() {
    }

    proof fn lemma_neg_involutive(x: Self) {
    }
}

impl ExactArithmetic for u8 {
    proof fn lemma_obeys_specs() {
    }

    proof fn lemma_add_commutative(x: Self, y: Self) {
    }

    proof fn lemma_add_associative(x: Self, y: Self, z: Self) {
    }

    proof fn lemma_add_zero(x: Self) {
        lemma_integer_identities();
    }

    proof fn lemma_sub_self(x: Self) {
        lemma_integer_identities();
    }

    proof fn lemma_mul_div_cancel(x: Self, s: Self) {
        lemma_integer_identities();
        lemma_quotient_of_product(x as int, s as int);
    }

    proof fn lemma_one_mul_zero() {
        lemma_integer_identities();
    }

    proof fn lemma_mul_distributes(x: Self, y: Self, s: Self) {
        lemma_product_of_sum(x as int, y as int, s as int);
    }
}

impl ExactArithmetic for u16 {
    proof fn lemma_obeys_specs() {
    }

    proof fn lemma_add_commutative(x: Self, y: Self) {
    }

    proof fn lemma_add_associative(x: Self, y: Self, z: Self) {
    }

    proof fn lemma_add_zero(x: Self) {
        lemma_integer_identities();
    }

    proof fn lemma_sub_self(x: Self) {
        lemma_integer_identities();
    }

    proof fn lemma_mul_div_cancel(x: Self, s: Self) {
        lemma_integer_identities();
        lemma_quotient_of_product(x as int, s as int);
    }

    proof fn lemma_one_mul_zero() {
        lemma_integer_identities();
    }

    proof fn lemma_mul_distributes(x: Self, y: Self, s: Self) {
        lemma_product_of_sum(x as int, y as int, s as int);
    }
}

impl ExactArithmetic for u32 {
    proof fn lemma_obeys_specs() {
    }

    proof fn lemma_add_commutative(x: Self, y: Self) {
    }

    proof fn lemma_add_associative(x: Self, y: Self, z: Self) {
    }

    proof fn lemma_add_zero(x: Self) {
        lemma_integer_identities();
    }

    proof fn lemma_sub_self(x: Self) {
        lemma_integer_identities();
    }

    proof fn lemma_mul_div_cancel(x: Self, s: Self) {
        lemma_integer_identities();
        lemma_quotient_of_product(x as int, s as int);
    }

    proof fn lemma_one_mul_zero() {
        lemma_integer_identities();
    }

    proof fn lemma_mul_distributes(x: Self, y: Self, s: Self) {
        lemma_product_of_sum(x as int, y as int, s as int);
    }
}

impl ExactArithmetic for u64 {
    proof fn lemma_obeys_specs() {
    }

    proof fn lemma_add_commutative(x: Self, y: Self) {
    }

    proof fn lemma_add_associative(x: Self, y: Self, z: Self) {
    }

    proof fn lemma_add_zero(x: Self) {
        lemma_integer_identities();
    }

    proof fn lemma_sub_self(x: Self) {
        lemma_integer_identities();
    }

    proof fn lemma_mul_div_cancel(x: Self, s: Self) {
        lemma_integer_identities();
        lemma_quotient_of_product(x as int, s as int);
    }

    proof fn lemma_one_mul_zero() {
        lemma_integer_identities();
    }

    proof fn lemma_mul_distributes(x: Self, y: Self, s: Self) {
        lemma_product_of_sum(x as int, y as int, s as int);
    }
}

impl ExactArithmetic for u128 {
    proof fn lemma_obeys_specs() {
    }

    proof fn lemma_add_commutative(x: Self, y: Self) {
    }

    proof fn lemma_add_associative(x: Self, y: Self, z: Self) {
    }

    proof fn lemma_add_zero(x: Self) {
        lemma_integer_identities();
    }

    proof fn lemma_sub_self(x: Self) {
        lemma_integer_identities();
    }

    proof fn lemma_mul_div_cancel(x: Self, s: Self) {
        lemma_integer_identities();
        lemma_quotient_of_product(x as int, s as int);
    }

    proof fn lemma_one_mul_zero() {
        lemma_integer_identities();
    }

    proof fn lemma_mul_distributes(x: Self, y: Self, s: Self) {
        lemma_product_of_sum(x as int, y as int, s as int);
    }
}

impl ExactArithmetic for usize {
    proof fn lemma_obeys_specs() {
    }

    proof fn lemma_add_commutative(x: Self, y: Self) {
    }

    proof fn lemma_add_associative(x: Self, y: Self, z: Self) {
    }

    proof fn lemma_add_zero(x: Self) {
        lemma_integer_identities();
    }

    proof fn lemma_sub_self(x: Self) {
        lemma_integer_identities();
    }

    proof fn lemma_mul_div_cancel(x: Self, s: Self) {
        lemma_integer_identities();
        lemma_quotient_of_product(x as int, s as int);
    }

    proof fn lemma_one_mul_zero() {
        lemma_integer_identities();
    }

    proof fn lemma_mul_distributes(x: Self, y: Self, s: Self) {
        lemma_product_of_sum(x as int, y as int, s as int);
    }
}

} // verus!
