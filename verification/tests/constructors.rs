use fixed_vector::num_traits::{One, Zero};
use fixed_vector::vector::Vector;

#[test]
fn integer_identities_are_zero_and_one() {
    assert_eq!(<i8 as Zero>::ZERO, 0);
    assert_eq!(<i16 as Zero>::ZERO, 0);
    assert_eq!(<i32 as Zero>::ZERO, 0);
    assert_eq!(<i64 as Zero>::ZERO, 0);
    assert_eq!(<i128 as Zero>::ZERO, 0);
    assert_eq!(<isize as Zero>::ZERO, 0);
    assert_eq!(<u8 as Zero>::ZERO, 0);
    assert_eq!(<u16 as Zero>::ZERO, 0);
    assert_eq!(<u32 as Zero>::ZERO, 0);
    assert_eq!(<u64 as Zero>::ZERO, 0);
    assert_eq!(<u128 as Zero>::ZERO, 0);
    assert_eq!(<usize as Zero>::ZERO, 0);
    assert_eq!(<i8 as One>::ONE, 1);
    assert_eq!(<i16 as One>::ONE, 1);
    assert_eq!(<i32 as One>::ONE, 1);
    assert_eq!(<i64 as One>::ONE, 1);
    assert_eq!(<i128 as One>::ONE, 1);
    assert_eq!(<isize as One>::ONE, 1);
    assert_eq!(<u8 as One>::ONE, 1);
    assert_eq!(<u16 as One>::ONE, 1);
    assert_eq!(<u32 as One>::ONE, 1);
    assert_eq!(<u64 as One>::ONE, 1);
    assert_eq!(<u128 as One>::ONE, 1);
    assert_eq!(<usize as One>::ONE, 1);
}

#[test]
fn zero_fills_every_component_with_zero() {
    assert_eq!(Vector::<3, i32>::zero(), Vector::new([0, 0, 0]));
    assert_eq!(Vector::<1, u8>::zero(), Vector::new([0]));
    assert_eq!(Vector::<5, i128>::zero(), Vector::new([0, 0, 0, 0, 0]));
}

#[test]
fn ones_fills_every_component_with_one() {
    assert_eq!(Vector::<3, i32>::ones(), Vector::new([1, 1, 1]));
    assert_eq!(Vector::<2, usize>::ones(), Vector::new([1, 1]));
    assert_eq!(Vector::<4, u64>::ones(), Vector::new([1, 1, 1, 1]));
}

#[test]
fn zero_and_ones_differ() {
    assert_ne!(Vector::<2, i16>::zero(), Vector::<2, i16>::ones());
}

#[test]
fn new_keeps_the_components_in_order() {
    let v = Vector::new([7i64, -3, 11]);
    assert_eq!(v, Vector::new([7, -3, 11]));
    assert_ne!(v, Vector::new([-3, 7, 11]));
    assert_ne!(v, Vector::new([7, -3, 12]));
}

#[test]
fn vectors_without_components_are_all_equal() {
    let empty: Vector<0, i32> = Vector::new([]);
    assert_eq!(Vector::<0, i32>::zero(), empty);
    assert_eq!(Vector::<0, i32>::ones(), empty);
    assert_eq!(empty + empty, empty);
    assert_eq!(empty * 9, empty);
}

#[test]
fn vectors_are_copied_not_shared() {
    let a = Vector::new([1u32, 2]);
    let mut b = a;
    b += Vector::new([10, 10]);
    assert_eq!(a, Vector::new([1, 2]));
    assert_eq!(b, Vector::new([11, 12]));
}
