//! What a vector asks of the type of its components: additive and
//! multiplicative identities, and the operations of a scalar.

use std::ops::{Add, Mul, Neg, Sub};
use vstd::prelude::*;

verus! {

/// A type with an additive identity.
pub trait Zero {
    /// The additive identity.
    const ZERO: Self;
}

/// A type with a multiplicative identity.
pub trait One {
    /// The multiplicative identity.
    const ONE: Self;
}

/// A scalar: a type closed under addition, subtraction, multiplication and
/// negation that can also take square roots.
pub trait Scalar:
    Add<Output = Self>
    + Sub<Output = Self>
    + Mul<Output = Self>
    + Neg<Output = Self>
    + Sized
{
    /// What `sqrt` promises of the root it returns for `self`. An
    /// implementation that promises nothing leaves this as it is.
    open spec fn sqrt_ensures(self, root: Self) -> bool {
        true
    }

    /// The square root of `self`.
    fn sqrt(self) -> (root: Self)
        ensures
            self.sqrt_ensures(root),
    ;
}

impl Zero for i8 {
    const ZERO: Self = 0;
}

impl One for i8 {
    const ONE: Self = 1;
}

impl Zero for i16 {
    const ZERO: Self = 0;
}

impl One for i16 {
    const ONE: Self = 1;
}

impl Zero for i32 {
    const ZERO: Self = 0;
}

impl One for i32 {
    const ONE: Self = 1;
}

impl Zero for i64 {
    const ZERO: Self = 0;
}

impl One for i64 {
    const ONE: Self = 1;
}

impl Zero for i128 {
    const ZERO: Self = 0;
}

impl One for i128 {
    const ONE: Self = 1;
}

impl Zero for isize {
    const ZERO: Self = 0;
}

impl One for isize {
    const ONE: Self = 1;
}

impl Zero for u8 {
    const ZERO: Self = 0;
}

impl One for u8 {
    const ONE: Self = 1;
}

impl Zero for u16 {
    const ZERO: Self = 0;
}

impl One for u16 {
    const ONE: Self = 1;
}

impl Zero for u32 {
    const ZERO: Self = 0;
}

impl One for u32 {
    const ONE: Self = 1;
}

impl Zero for u64 {
    const ZERO: Self = 0;
}

impl One for u64 {
    const ONE: Self = 1;
}

impl Zero for u128 {
    const ZERO: Self = 0;
}

impl One for u128 {
    const ONE: Self = 1;
}

impl Zero for usize {
    const ZERO: Self = 0;
}

impl One for usize {
    const ONE: Self = 1;
}

/// The identities of the machine integers are the numbers zero and one.
pub proof fn lemma_integer_identities()
    ensures
        i8::ZERO == 0,
        i8::ONE == 1,
        i16::ZERO == 0,
        i16::ONE == 1,
        i32::ZERO == 0,
        i32::ONE == 1,
        i64::ZERO == 0,
        i64::ONE == 1,
        i128::ZERO == 0,
        i128::ONE == 1,
        isize::ZERO == 0,
        isize::ONE == 1,
        u8::ZERO == 0,
        u8::ONE == 1,
        u16::ZERO == 0,
        u16::ONE == 1,
        u32::ZERO == 0,
        u32::ONE == 1,
        u64::ZERO == 0,
        u64::ONE == 1,
        u128::ZERO == 0,
        u128::ONE == 1,
        usize::ZERO == 0,
        usize::ONE == 1,
{
}

} // verus!
