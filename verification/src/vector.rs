//! Vectors of a fixed number of components, with component-wise arithmetic,
//! scaling by a scalar, and the Euclidean norm.

use crate::num_traits::{One, Scalar, Zero};
use std::ops::{Add, AddAssign, Div, DivAssign, Mul, MulAssign, Neg, Sub, SubAssign};
use vstd::array::spec_array_update;
use vstd::pervasive::arbitrary;
use vstd::prelude::*;
use vstd::std_specs::ops::{AddSpec, DivSpec, MulSpec, NegSpec, SubSpec};

verus! {

/// A vector of exactly `N` components of type `T`.
///
/// Its view is the sequence of its components, first to last.
#[derive(Debug, Clone, Copy, PartialEq, Eq, Hash)]
pub struct Vector<const N: usize, T> {
    components: [T; N],
}

impl<const N: usize, T> View for Vector<N, T> {
    type V = Seq<T>;

    closed spec fn view(&self) -> Seq<T> {
        self.components@
    }
}

/// Some array that agrees with `s` on its first `k` places.
proof fn array_with_prefix<const N: usize, T>(s: Seq<T>, k: nat) -> (a: [T; N])
    requires
        s.len() == N,
        k <= N,
    ensures
        forall|i: int| 0 <= i < k ==> a@[i] == s[i],
    decreases k,
{
    if k == 0 {
        arbitrary()
    } else {
        let shorter = array_with_prefix::<N, T>(s, (k - 1) as nat);
        spec_array_update(shorter, k - 1, s[k - 1])
    }
}

impl<const N: usize, T> Vector<N, T> {
    /// The vector whose components are the entries of `s`, for `s` of length `N`.
    pub closed spec fn from_seq(s: Seq<T>) -> Self {
        Vector { components: choose|a: [T; N]| a@ == s }
    }

    /// Every vector has exactly `N` components.
    pub proof fn lemma_len(self)
        ensures
            self@.len() == N,
    {
    }

    /// Vectors with the same components are the same vector.
    pub proof fn lemma_ext_equal(self, other: Self)
        requires
            self@ == other@,
        ensures
            self == other,
    {
        assert(self.components =~= other.components);
    }

    /// Every sequence of length `N` is the view of the vector made from it.
    pub proof fn lemma_from_seq(s: Seq<T>)
        requires
            s.len() == N,
        ensures
            Self::from_seq(s)@ == s,
    {
        let a = array_with_prefix::<N, T>(s, N as nat);
        assert(a@ =~= s);
    }

    /// The vector with the given components.
    pub fn new(components: [T; N]) -> (out: Self)
        ensures
            out@ == components@,
    {
        Vector { components }
    }
}

impl<const N: usize, T: Zero + Copy> Vector<N, T> {
    /// The vector whose every component is `T::ZERO`.
    pub open spec fn spec_zero() -> Self {
        Self::from_seq(Seq::new(N as nat, |i: int| T::ZERO))
    }

    /// The components of the zero vector, one by one.
    pub proof fn lemma_zero()
        ensures
            Self::zero()@.len() == N,
            forall|i: int| 0 <= i < N ==> Self::zero()@[i] == T::ZERO,
    {
        Self::lemma_from_seq(Seq::new(N as nat, |i: int| T::ZERO));
    }

    /// The vector whose every component is the additive identity.
    #[verifier::when_used_as_spec(spec_zero)]
    pub fn zero() -> (out: Self)
        ensures
            out == Self::spec_zero(),
            out@ == Seq::new(N as nat, |i: int| T::ZERO),
    {
        let out = Vector { components: [T::ZERO;N] };
        proof {
            assert(out@ =~= Seq::new(N as nat, |i: int| T::ZERO));
            Self::lemma_from_seq(out@);
            out.lemma_ext_equal(Self::spec_zero());
        }
        out
    }
}

impl<const N: usize, T: One + Copy> Vector<N, T> {
    /// The vector whose every component is `T::ONE`.
    pub open spec fn spec_ones() -> Self {
        Self::from_seq(Seq::new(N as nat, |i: int| T::ONE))
    }

    /// The components of the vector of ones, one by one.
    pub proof fn lemma_ones()
        ensures
            Self::ones()@.len() == N,
            forall|i: int| 0 <= i < N ==> Self::ones()@[i] == T::ONE,
    {
        Self::lemma_from_seq(Seq::new(N as nat, |i: int| T::ONE));
    }

    /// The vector whose every component is the multiplicative identity.
    #[verifier::when_used_as_spec(spec_ones)]
    pub fn ones() -> (out: Self)
        ensures
            out == Self::spec_ones(),
            out@ == Seq::new(N as nat, |i: int| T::ONE),
    {
        let out = Vector { components: [T::ONE;N] };
        proof {
            assert(out@ =~= Seq::new(N as nat, |i: int| T::ONE));
            Self::lemma_from_seq(out@);
            out.lemma_ext_equal(Self::spec_ones());
        }
        out
    }
}

impl<const N: usize, T: Scalar + Copy> Vector<N, T> {
    /// The square of the component at `i`.
    pub open spec fn square_at(self, i: int) -> T {
        self@[i].mul_spec(self@[i])
    }

    /// The squares of the first `k` components, for `k >= 1`, added up one
    /// after the other from the first component onwards.
    pub open spec fn sum_of_squares(self, k: nat) -> T
        decreases k,
    {
        if k <= 1 {
            self.square_at(0)
        } else {
            self.sum_of_squares((k - 1) as nat).add_spec(self.square_at(k - 1))
        }
    }

    /// Whether the products and sums of `T` are what `mul_spec` and
    /// `add_spec` say.
    pub open spec fn obeys_norm_spec() -> bool {
        T::obeys_mul_spec() && T::obeys_add_spec()
    }

    /// Whether every step of the squared norm is permitted: every component
    /// may be squared, and every square may be added to the sum before it.
    /// Where `T` makes no such promise the sums are not known beforehand, and
    /// if there is anything to add, any two values of `T` have to be addable.
    pub open spec fn norm_squared_req(self) -> bool {
        &&& forall|i: int| 0 <= i < N ==> (#[trigger] self@[i]).mul_req(self@[i])
        &&& Self::obeys_norm_spec() ==> forall|k: int|
            1 <= k < N ==> (#[trigger] self.sum_of_squares(k as nat)).add_req(self.square_at(k))
        &&& !Self::obeys_norm_spec() && N > 1 ==> forall|x: T, y: T| #[trigger] x.add_req(y)
    }

    /// The sum of the squares of all components, added up from the first
    /// component onwards.
    pub open spec fn spec_norm_squared(&self) -> T {
        self.sum_of_squares(N as nat)
    }

    /// The squared Euclidean norm: the sum of the squares of the components,
    /// accumulated from the first component to the last. A vector without
    /// components has no first component and so no squared norm.
    #[verifier::when_used_as_spec(spec_norm_squared)]
    pub fn norm_squared(&self) -> (out: T)
        requires
            N > 0,
            self.norm_squared_req(),
        ensures
            Self::obeys_norm_spec() ==> out == self.spec_norm_squared(),
    {
        let first = self.components[0];
        assert(first == self@[0]);
        let mut acc = first * first;
        for index in 1..N
            invariant
                self.norm_squared_req(),
                Self::obeys_norm_spec() ==> acc == self.sum_of_squares(index as nat),
        {
            let component = self.components[index];
            assert(component == self@[index as int]);
            let square = component * component;
            acc = acc + square;
        }
        acc
    }

    /// The Euclidean norm: the square root of the squared norm.
    pub fn norm(&self) -> (out: T)
        requires
            N > 0,
            self.norm_squared_req(),
        ensures
            Self::obeys_norm_spec() ==> self.spec_norm_squared().sqrt_ensures(out),
    {
        self.norm_squared().sqrt()
    }
}

impl<const N: usize, T: Add<Output = T> + Copy> Vector<N, T> {
    /// Whether every component of `self` may be added to its counterpart in `rhs`.
    pub open spec fn plus_req(self, rhs: Self) -> bool {
        forall|i: int| 0 <= i < N ==> (#[trigger] self@[i]).add_req(rhs@[i])
    }

    /// The component-wise sum of `self` and `rhs`.
    pub open spec fn plus(self, rhs: Self) -> Self {
        Self::from_seq(Seq::new(N as nat, |i: int| self@[i].add_spec(rhs@[i])))
    }

    /// The components of `self.plus(rhs)`, one by one.
    pub proof fn lemma_plus(self, rhs: Self)
        ensures
            self.plus(rhs)@.len() == N,
            forall|i: int| 0 <= i < N ==> self.plus(rhs)@[i] == self@[i].add_spec(rhs@[i]),
    {
        Self::lemma_from_seq(Seq::new(N as nat, |i: int| self@[i].add_spec(rhs@[i])));
    }
}

impl<const N: usize, T: Add<Output = T> + Copy> vstd::std_specs::ops::AddSpecImpl for Vector<N, T> {
    /// The addition of vectors is as faithful as that of their components.
    open spec fn obeys_add_spec() -> bool {
        T::obeys_add_spec()
    }

    open spec fn add_req(self, rhs: Self) -> bool {
        self.plus_req(rhs)
    }

    open spec fn add_spec(self, rhs: Self) -> Self {
        self.plus(rhs)
    }
}

impl<const N: usize, T: Add<Output = T> + Copy> Add for Vector<N, T> {
    type Output = Self;

    /// Component-wise addition.
    fn add(self, rhs: Self) -> (out: Self)
        ensures
            T::obeys_add_spec() ==> forall|i: int|
                0 <= i < N ==> out@[i] == self@[i].add_spec(rhs@[i]),
    {
        proof {
            self.lemma_plus(rhs);
        }
        let mut out = self;
        out.add_assign(rhs);
        out
    }
}

impl<const N: usize, T: Add<Output = T> + Copy> AddAssign for Vector<N, T> {
    /// Component-wise addition in place.
    fn add_assign(&mut self, rhs: Self)
        requires
            old(self).plus_req(rhs),
        ensures
            T::obeys_add_spec() ==> *final(self) == old(self).plus(rhs),
            T::obeys_add_spec() ==> forall|i: int|
                0 <= i < N ==> final(self)@[i] == old(self)@[i].add_spec(rhs@[i]),
    {
        let ghost before = *self;
        for index in 0..N
            invariant
                before.plus_req(rhs),
                forall|i: int|
                    0 <= i < index && T::obeys_add_spec() ==> self@[i] == before@[i].add_spec(
                        rhs@[i],
                    ),
                forall|i: int| index <= i < N ==> self@[i] == before@[i],
        {
            assert(self.components[index as int] == before@[index as int]);
            let component = self.components[index] + rhs.components[index];
            self.components[index] = component;
        }
        proof {
            if T::obeys_add_spec() {
                before.lemma_plus(rhs);
                assert(self@ =~= before.plus(rhs)@);
                self.lemma_ext_equal(before.plus(rhs));
            }
        }
    }
}

impl<const N: usize, T: Sub<Output = T> + Copy> Vector<N, T> {
    /// Whether every component of `rhs` may be subtracted from its counterpart in `self`.
    pub open spec fn minus_req(self, rhs: Self) -> bool {
        forall|i: int| 0 <= i < N ==> (#[trigger] self@[i]).sub_req(rhs@[i])
    }

    /// The component-wise difference of `self` and `rhs`.
    pub open spec fn minus(self, rhs: Self) -> Self {
        Self::from_seq(Seq::new(N as nat, |i: int| self@[i].sub_spec(rhs@[i])))
    }

    /// The components of `self.minus(rhs)`, one by one.
    pub proof fn lemma_minus(self, rhs: Self)
        ensures
            self.minus(rhs)@.len() == N,
            forall|i: int| 0 <= i < N ==> self.minus(rhs)@[i] == self@[i].sub_spec(rhs@[i]),
    {
        Self::lemma_from_seq(Seq::new(N as nat, |i: int| self@[i].sub_spec(rhs@[i])));
    }
}

impl<const N: usize, T: Sub<Output = T> + Copy> vstd::std_specs::ops::SubSpecImpl for Vector<N, T> {
    /// The subtraction of vectors is as faithful as that of their components.
    open spec fn obeys_sub_spec() -> bool {
        T::obeys_sub_spec()
    }

    open spec fn sub_req(self, rhs: Self) -> bool {
        self.minus_req(rhs)
    }

    open spec fn sub_spec(self, rhs: Self) -> Self {
        self.minus(rhs)
    }
}

impl<const N: usize, T: Sub<Output = T> + Copy> Sub for Vector<N, T> {
    type Output = Self;

    /// Component-wise subtraction.
    fn sub(self, rhs: Self) -> (out: Self)
        ensures
            T::obeys_sub_spec() ==> forall|i: int|
                0 <= i < N ==> out@[i] == self@[i].sub_spec(rhs@[i]),
    {
        proof {
            self.lemma_minus(rhs);
        }
        let mut out = self;
        out.sub_assign(rhs);
        out
    }
}

impl<const N: usize, T: Sub<Output = T> + Copy> SubAssign for Vector<N, T> {
    /// Component-wise subtraction in place.
    fn sub_assign(&mut self, rhs: Self)
        requires
            old(self).minus_req(rhs),
        ensures
            T::obeys_sub_spec() ==> *final(self) == old(self).minus(rhs),
            T::obeys_sub_spec() ==> forall|i: int|
                0 <= i < N ==> final(self)@[i] == old(self)@[i].sub_spec(rhs@[i]),
    {
        let ghost before = *self;
        for index in 0..N
            invariant
                before.minus_req(rhs),
                forall|i: int|
                    0 <= i < index && T::obeys_sub_spec() ==> self@[i] == before@[i].sub_spec(
                        rhs@[i],
                    ),
                forall|i: int| index <= i < N ==> self@[i] == before@[i],
        {
            assert(self.components[index as int] == before@[index as int]);
            let component = self.components[index] - rhs.components[index];
            self.components[index] = component;
        }
        proof {
            if T::obeys_sub_spec() {
                before.lemma_minus(rhs);
                assert(self@ =~= before.minus(rhs)@);
                self.lemma_ext_equal(before.minus(rhs));
            }
        }
    }
}

impl<const N: usize, T: Neg<Output = T> + Copy> Vector<N, T> {
    /// Whether every component of `self` may be negated.
    pub open spec fn negated_req(self) -> bool {
        forall|i: int| 0 <= i < N ==> (#[trigger] self@[i]).neg_req()
    }

    /// The component-wise negation of `self`.
    pub open spec fn negated(self) -> Self {
        Self::from_seq(Seq::new(N as nat, |i: int| self@[i].neg_spec()))
    }

    /// The components of `self.negated()`, one by one.
    pub proof fn lemma_negated(self)
        ensures
            self.negated()@.len() == N,
            forall|i: int| 0 <= i < N ==> self.negated()@[i] == self@[i].neg_spec(),
    {
        Self::lemma_from_seq(Seq::new(N as nat, |i: int| self@[i].neg_spec()));
    }
}

impl<const N: usize, T: Neg<Output = T> + Copy> vstd::std_specs::ops::NegSpecImpl for Vector<N, T> {
    /// The negation of vectors is as faithful as that of their components.
    open spec fn obeys_neg_spec() -> bool {
        T::obeys_neg_spec()
    }

    open spec fn neg_req(self) -> bool {
        self.negated_req()
    }

    open spec fn neg_spec(self) -> Self {
        self.negated()
    }
}

impl<const N: usize, T: Neg<Output = T> + Copy> Neg for Vector<N, T> {
    type Output = Self;

    /// Component-wise negation.
    fn neg(self) -> (out: Self)
        ensures
            T::obeys_neg_spec() ==> forall|i: int| 0 <= i < N ==> out@[i] == self@[i].neg_spec(),
    {
        let mut out = self;
        for index in 0..N
            invariant
                self.negated_req(),
                forall|i: int|
                    0 <= i < index && T::obeys_neg_spec() ==> out@[i] == self@[i].neg_spec(),
                forall|i: int| index <= i < N ==> out@[i] == self@[i],
        {
            assert(out.components[index as int] == self@[index as int]);
            let component = out.components[index].neg();
            out.components[index] = component;
        }
        proof {
            if T::obeys_neg_spec() {
                self.lemma_negated();
                assert(out@ =~= self.negated()@);
                out.lemma_ext_equal(self.negated());
            }
        }
        out
    }
}

impl<const N: usize, T: Mul<Output = T> + Copy> Vector<N, T> {
    /// Whether every component of `self` may be multiplied by `scalar`.
    pub open spec fn scaled_by_req(self, scalar: T) -> bool {
        forall|i: int| 0 <= i < N ==> (#[trigger] self@[i]).mul_req(scalar)
    }

    /// The vector `self` with every component multiplied by `scalar`.
    pub open spec fn scaled_by(self, scalar: T) -> Self {
        Self::from_seq(Seq::new(N as nat, |i: int| self@[i].mul_spec(scalar)))
    }

    /// The components of `self.scaled_by(scalar)`, one by one.
    pub proof fn lemma_scaled_by(self, scalar: T)
        ensures
            self.scaled_by(scalar)@.len() == N,
            forall|i: int| 0 <= i < N ==> self.scaled_by(scalar)@[i] == self@[i].mul_spec(scalar),
    {
        Self::lemma_from_seq(Seq::new(N as nat, |i: int| self@[i].mul_spec(scalar)));
    }
}

impl<const N: usize, T: Mul<Output = T> + Copy> vstd::std_specs::ops::MulSpecImpl<T> for Vector<N, T> {
    /// The scaling of vectors is as faithful as that of their components.
    open spec fn obeys_mul_spec() -> bool {
        T::obeys_mul_spec()
    }

    open spec fn mul_req(self, scalar: T) -> bool {
        self.scaled_by_req(scalar)
    }

    open spec fn mul_spec(self, scalar: T) -> Self {
        self.scaled_by(scalar)
    }
}

impl<const N: usize, T: Mul<Output = T> + Copy> Mul<T> for Vector<N, T> {
    type Output = Self;

    /// Multiplication of every component by `scalar`.
    fn mul(self, scalar: T) -> (out: Self)
        ensures
            T::obeys_mul_spec() ==> forall|i: int|
                0 <= i < N ==> out@[i] == self@[i].mul_spec(scalar),
    {
        proof {
            self.lemma_scaled_by(scalar);
        }
        let mut out = self;
        out.mul_assign(scalar);
        out
    }
}

impl<const N: usize, T: Mul<Output = T> + Copy> MulAssign<T> for Vector<N, T> {
    /// Multiplication of every component by `scalar`, in place.
    fn mul_assign(&mut self, scalar: T)
        requires
            old(self).scaled_by_req(scalar),
        ensures
            T::obeys_mul_spec() ==> *final(self) == old(self).scaled_by(scalar),
            T::obeys_mul_spec() ==> forall|i: int|
                0 <= i < N ==> final(self)@[i] == old(self)@[i].mul_spec(scalar),
    {
        let ghost before = *self;
        for index in 0..N
            invariant
                before.scaled_by_req(scalar),
                forall|i: int|
                    0 <= i < index && T::obeys_mul_spec() ==> self@[i] == before@[i].mul_spec(
                        scalar,
                    ),
                forall|i: int| index <= i < N ==> self@[i] == before@[i],
        {
            assert(self.components[index as int] == before@[index as int]);
            let component = self.components[index] * scalar;
            self.components[index] = component;
        }
        proof {
            if T::obeys_mul_spec() {
                before.lemma_scaled_by(scalar);
                assert(self@ =~= before.scaled_by(scalar)@);
                self.lemma_ext_equal(before.scaled_by(scalar));
            }
        }
    }
}

impl<const N: usize, T: Div<Output = T> + Copy> Vector<N, T> {
    /// Whether every component of `self` may be divided by `scalar`.
    pub open spec fn divided_by_req(self, scalar: T) -> bool {
        forall|i: int| 0 <= i < N ==> (#[trigger] self@[i]).div_req(scalar)
    }

    /// The vector `self` with every component divided by `scalar`.
    pub open spec fn divided_by(self, scalar: T) -> Self {
        Self::from_seq(Seq::new(N as nat, |i: int| self@[i].div_spec(scalar)))
    }

    /// The components of `self.divided_by(scalar)`, one by one.
    pub proof fn lemma_divided_by(self, scalar: T)
        ensures
            self.divided_by(scalar)@.len() == N,
            forall|i: int| 0 <= i < N ==> self.divided_by(scalar)@[i] == self@[i].div_spec(scalar),
    {
        Self::lemma_from_seq(Seq::new(N as nat, |i: int| self@[i].div_spec(scalar)));
    }
}

impl<const N: usize, T: Div<Output = T> + Copy> vstd::std_specs::ops::DivSpecImpl<T> for Vector<N, T> {
    /// The division of vectors is as faithful as that of their components.
    open spec fn obeys_div_spec() -> bool {
        T::obeys_div_spec()
    }

    open spec fn div_req(self, scalar: T) -> bool {
        self.divided_by_req(scalar)
    }

    open spec fn div_spec(self, scalar: T) -> Self {
        self.divided_by(scalar)
    }
}

impl<const N: usize, T: Div<Output = T> + Copy> Div<T> for Vector<N, T> {
    type Output = Self;

    /// Division of every component by `scalar`.
    fn div(self, scalar: T) -> (out: Self)
        ensures
            T::obeys_div_spec() ==> forall|i: int|
                0 <= i < N ==> out@[i] == self@[i].div_spec(scalar),
    {
        proof {
            self.lemma_divided_by(scalar);
        }
        let mut out = self;
        out.div_assign(scalar);
        out
    }
}

impl<const N: usize, T: Div<Output = T> + Copy> DivAssign<T> for Vector<N, T> {
    /// Division of every component by `scalar`, in place.
    fn div_assign(&mut self, scalar: T)
        requires
            old(self).divided_by_req(scalar),
        ensures
            T::obeys_div_spec() ==> *final(self) == old(self).divided_by(scalar),
            T::obeys_div_spec() ==> forall|i: int|
                0 <= i < N ==> final(self)@[i] == old(self)@[i].div_spec(scalar),
    {
        let ghost before = *self;
        for index in 0..N
            invariant
                before.divided_by_req(scalar),
                forall|i: int|
                    0 <= i < index && T::obeys_div_spec() ==> self@[i] == before@[i].div_spec(
                        scalar,
                    ),
                forall|i: int| index <= i < N ==> self@[i] == before@[i],
        {
            assert(self.components[index as int] == before@[index as int]);
            let component = self.components[index] / scalar;
            self.components[index] = component;
        }
        proof {
            if T::obeys_div_spec() {
                before.lemma_divided_by(scalar);
                assert(self@ =~= before.divided_by(scalar)@);
                self.lemma_ext_equal(before.divided_by(scalar));
            }
        }
    }
}

} // verus!
