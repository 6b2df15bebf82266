use fixed_vector::num_traits::{One, Scalar, Zero};
use fixed_vector::vector::Vector;
use std::ops::{Add, Mul, Neg, Sub};

#[derive(Debug, Clone, Copy, PartialEq)]
struct Real(f64);

impl Add for Real {
    type Output = Real;

    fn add(self, rhs: Real) -> Real {
        Real(self.0 + rhs.0)
    }
}

impl Sub for Real {
    type Output = Real;

    fn sub(self, rhs: Real) -> Real {
        Real(self.0 - rhs.0)
    }
}

impl Mul for Real {
    type Output = Real;

    fn mul(self, rhs: Real) -> Real {
        Real(self.0 * rhs.0)
    }
}

impl Neg for Real {
    type Output = Real;

    fn neg(self) -> Real {
        Real(-self.0)
    }
}

impl Zero for Real {
    const ZERO: Real = Real(0.0);
}

impl One for Real {
    const ONE: Real = Real(1.0);
}

impl Scalar for Real {
    fn sqrt(self) -> Real {
        Real(self.0.sqrt())
    }
}

#[test]
fn squared_norm_of_a_single_component_is_its_square() {
    assert_eq!(Vector::new([Real(3.0)]).norm_squared(), Real(9.0));
    assert_eq!(Vector::new([Real(-1.5)]).norm_squared(), Real(2.25));
    assert_eq!(Vector::new([Real(0.0)]).norm_squared(), Real(0.0));
}

#[test]
fn norm_of_a_single_component_is_its_magnitude() {
    assert_eq!(Vector::new([Real(-4.0)]).norm(), Real(4.0));
}

#[test]
fn norm_of_three_four_is_five() {
    let v = Vector::new([Real(3.0), Real(4.0)]);
    assert_eq!(v.norm_squared(), Real(25.0));
    assert_eq!(v.norm(), Real(5.0));
}

#[test]
fn squared_norm_adds_up_every_square() {
    let v = Vector::new([Real(1.0), Real(2.0), Real(3.0), Real(4.0)]);
    assert_eq!(v.norm_squared(), Real(30.0));
    let w = Vector::new([Real(2.0), Real(-3.0), Real(6.0)]);
    assert_eq!(w.norm_squared(), Real(49.0));
    assert_eq!(w.norm(), Real(7.0));
}

#[test]
fn squared_norm_accumulates_from_the_first_component() {
    let root = 134217728.0;
    let square = 18014398509481984.0;
    let v = Vector::new([Real(root), Real(1.0), Real(1.0), Real(1.0)]);
    assert_eq!(v.norm_squared(), Real(square));
    let w = Vector::new([Real(1.0), Real(1.0), Real(1.0), Real(root)]);
    assert_eq!(w.norm_squared(), Real(square + 4.0));
    assert_ne!(v.norm_squared(), w.norm_squared());
}

#[test]
fn norm_of_zero_and_ones() {
    assert_eq!(Vector::<3, Real>::zero().norm(), Real(0.0));
    assert_eq!(Vector::<4, Real>::ones().norm_squared(), Real(4.0));
    assert_eq!(Vector::<4, Real>::ones().norm(), Real(2.0));
}

#[test]
fn scalar_wrappers_support_vector_arithmetic() {
    let a = Vector::new([Real(1.0), Real(2.0)]);
    let b = Vector::<2, Real>::ones();
    assert_eq!(a + b, Vector::new([Real(2.0), Real(3.0)]));
    assert_eq!(a - b, Vector::new([Real(0.0), Real(1.0)]));
    assert_eq!(-a, Vector::new([Real(-1.0), Real(-2.0)]));
    assert_eq!(a * Real(3.0), Vector::new([Real(3.0), Real(6.0)]));
    assert_eq!((a - a), Vector::zero());
}
