//! The algebra of vectors whose components are exact: what holds of `+`,
//! `-`, `*`, `/` and negation on vectors because it holds of their components.

use crate::exact::{ExactArithmetic, ExactNegation};
use crate::num_traits::Scalar;
use crate::vector::Vector;
use vstd::prelude::*;
use vstd::std_specs::ops::{AddSpec, DivSpec, MulSpec, NegSpec, SubSpec};

verus! {

/// Vector addition is commutative: `a + b == b + a`, and the one sum is
/// permitted where the other is.
pub proof fn lemma_add_commutative<const N: usize, T: ExactArithmetic>(
    a: Vector<N, T>,
    b: Vector<N, T>,
)
    ensures
        a.add_req(b) <==> b.add_req(a),
        a.add_spec(b) == b.add_spec(a),
{
    a.lemma_plus(b);
    b.lemma_plus(a);
    assert forall|i: int| 0 <= i < N implies a.plus(b)@[i] == b.plus(a)@[i] by {
        T::lemma_add_commutative(a@[i], b@[i]);
    }
    assert(a.plus(b)@ =~= b.plus(a)@);
    a.plus(b).lemma_ext_equal(b.plus(a));
    if a.add_req(b) {
        assert forall|i: int| 0 <= i < N implies (#[trigger] b@[i]).add_req(a@[i]) by {
            assert(a@[i].add_req(b@[i]));
            T::lemma_add_commutative(a@[i], b@[i]);
        }
    }
    if b.add_req(a) {
        assert forall|i: int| 0 <= i < N implies (#[trigger] a@[i]).add_req(b@[i]) by {
            assert(b@[i].add_req(a@[i]));
            T::lemma_add_commutative(a@[i], b@[i]);
        }
    }
}

/// Vector addition is associative: `(a + b) + c == a + (b + c)`. Where the
/// sums on the left and `b + c` are permitted, so is the last sum on the
/// right.
pub proof fn lemma_add_associative<const N: usize, T: ExactArithmetic>(
    a: Vector<N, T>,
    b: Vector<N, T>,
    c: Vector<N, T>,
)
    requires
        a.add_req(b),
        a.add_spec(b).add_req(c),
        b.add_req(c),
    ensures
        a.add_req(b.add_spec(c)),
        a.add_spec(b).add_spec(c) == a.add_spec(b.add_spec(c)),
{
    a.lemma_plus(b);
    b.lemma_plus(c);
    a.plus(b).lemma_plus(c);
    a.lemma_plus(b.plus(c));
    assert forall|i: int| 0 <= i < N implies (#[trigger] a@[i]).add_req(b.plus(c)@[i])
        && a.plus(b).plus(c)@[i] == a.plus(b.plus(c))@[i] by {
        assert(a@[i].add_req(b@[i]));
        assert(a.plus(b)@[i].add_req(c@[i]));
        assert(b@[i].add_req(c@[i]));
        T::lemma_add_associative(a@[i], b@[i], c@[i]);
    }
    assert(a.plus(b).plus(c)@ =~= a.plus(b.plus(c))@);
    a.plus(b).plus(c).lemma_ext_equal(a.plus(b.plus(c)));
}

/// The zero vector is a right identity of addition: `a + zero() == a`, and
/// the sum is always permitted.
pub proof fn lemma_add_zero<const N: usize, T: ExactArithmetic>(a: Vector<N, T>)
    ensures
        a.add_req(Vector::zero()),
        a.add_spec(Vector::zero()) == a,
{
    let zero = Vector::<N, T>::zero();
    Vector::<N, T>::lemma_zero();
    a.lemma_plus(zero);
    a.lemma_len();
    assert forall|i: int| 0 <= i < N implies (#[trigger] a@[i]).add_req(zero@[i])
        && a.plus(zero)@[i] == a@[i] by {
        T::lemma_add_zero(a@[i]);
    }
    assert(a.plus(zero)@ =~= a@);
    a.plus(zero).lemma_ext_equal(a);
}

/// A vector minus itself is the zero vector: `a - a == zero()`, and the
/// difference is always permitted.
pub proof fn lemma_sub_self<const N: usize, T: ExactArithmetic>(a: Vector<N, T>)
    ensures
        a.sub_req(a),
        a.sub_spec(a) == Vector::<N, T>::zero(),
{
    let zero = Vector::<N, T>::zero();
    Vector::<N, T>::lemma_zero();
    a.lemma_minus(a);
    assert forall|i: int| 0 <= i < N implies (#[trigger] a@[i]).sub_req(a@[i])
        && a.minus(a)@[i] == zero@[i] by {
        T::lemma_sub_self(a@[i]);
    }
    assert(a.minus(a)@ =~= zero@);
    a.minus(a).lemma_ext_equal(zero);
}

/// Negation is an involution: `-(-a) == a`, and the negation of `a` may be
/// negated again.
pub proof fn lemma_neg_involutive<const N: usize, T: ExactNegation>(a: Vector<N, T>)
    requires
        a.neg_req(),
    ensures
        a.neg_spec().neg_req(),
        a.neg_spec().neg_spec() == a,
{
    let negated = a.negated();
    a.lemma_negated();
    negated.lemma_negated();
    a.lemma_len();
    assert forall|i: int| 0 <= i < N implies (#[trigger] negated@[i]).neg_req()
        && negated@[i].neg_spec() == a@[i] by {
        assert(a@[i].neg_req());
        T::lemma_neg_involutive(a@[i]);
    }
    assert(negated.negated()@ =~= a@);
    negated.negated().lemma_ext_equal(a);
}

/// Division by a scalar undoes multiplication by it: `(a * s) / s == a` for
/// `s` other than zero, and the division is permitted.
pub proof fn lemma_mul_div_cancel<const N: usize, T: ExactArithmetic>(a: Vector<N, T>, s: T)
    requires
        s != T::ZERO,
        a.mul_req(s),
    ensures
        a.mul_spec(s).div_req(s),
        a.mul_spec(s).div_spec(s) == a,
{
    let scaled = a.scaled_by(s);
    a.lemma_scaled_by(s);
    scaled.lemma_divided_by(s);
    a.lemma_len();
    assert forall|i: int| 0 <= i < N implies (#[trigger] scaled@[i]).div_req(s)
        && scaled@[i].div_spec(s) == a@[i] by {
        assert(a@[i].mul_req(s));
        T::lemma_mul_div_cancel(a@[i], s);
    }
    assert(scaled.divided_by(s)@ =~= a@);
    scaled.divided_by(s).lemma_ext_equal(a);
}

/// The vector of ones times zero is the zero vector:
/// `ones() * ZERO == zero()`, and the product is always permitted.
pub proof fn lemma_ones_mul_zero<const N: usize, T: ExactArithmetic>()
    ensures
        Vector::<N, T>::ones().mul_req(T::ZERO),
        Vector::<N, T>::ones().mul_spec(T::ZERO) == Vector::<N, T>::zero(),
{
    let ones = Vector::<N, T>::ones();
    let zero = Vector::<N, T>::zero();
    Vector::<N, T>::lemma_ones();
    Vector::<N, T>::lemma_zero();
    ones.lemma_scaled_by(T::ZERO);
    T::lemma_one_mul_zero();
    assert(ones.scaled_by(T::ZERO)@ =~= zero@);
    ones.scaled_by(T::ZERO).lemma_ext_equal(zero);
}

/// Multiplication by a scalar distributes over vector addition:
/// `(a + b) * s == (a * s) + (b * s)`, and the sum of the two products is
/// permitted where the other operations are.
pub proof fn lemma_mul_distributes<const N: usize, T: ExactArithmetic>(
    a: Vector<N, T>,
    b: Vector<N, T>,
    s: T,
)
    requires
        a.add_req(b),
        a.add_spec(b).mul_req(s),
        a.mul_req(s),
        b.mul_req(s),
    ensures
        a.mul_spec(s).add_req(b.mul_spec(s)),
        a.add_spec(b).mul_spec(s) == a.mul_spec(s).add_spec(b.mul_spec(s)),
{
    a.lemma_plus(b);
    a.plus(b).lemma_scaled_by(s);
    a.lemma_scaled_by(s);
    b.lemma_scaled_by(s);
    a.scaled_by(s).lemma_plus(b.scaled_by(s));
    let products = a.scaled_by(s).plus(b.scaled_by(s));
    assert forall|i: int| 0 <= i < N implies (#[trigger] a.scaled_by(s)@[i]).add_req(
        b.scaled_by(s)@[i],
    ) && a.plus(b).scaled_by(s)@[i] == products@[i] by {
        assert(a@[i].add_req(b@[i]));
        assert(a.plus(b)@[i].mul_req(s));
        assert(a@[i].mul_req(s));
        assert(b@[i].mul_req(s));
        T::lemma_mul_distributes(a@[i], b@[i], s);
    }
    assert(a.plus(b).scaled_by(s)@ =~= products@);
    a.plus(b).scaled_by(s).lemma_ext_equal(products);
}

/// The squared norm of a vector with a single component is the square of
/// that component, and may be taken where that component may be squared.
pub proof fn lemma_norm_squared_single<T: Scalar + Copy>(a: Vector<1, T>)
    ensures
        a.norm_squared() == a@[0].mul_spec(a@[0]),
        a.norm_squared_req() <==> a@[0].mul_req(a@[0]),
{
    a.lemma_len();
}

} // verus!
