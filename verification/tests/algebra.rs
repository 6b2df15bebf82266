use fixed_vector::vector::Vector;

#[test]
fn addition_commutes() {
    let a = Vector::new([1i32, -2, 3]);
    let b = Vector::new([40i32, 50, -60]);
    assert_eq!(a + b, b + a);
    assert_eq!(a + b, Vector::new([41, 48, -57]));
}

#[test]
fn addition_associates() {
    let a = Vector::new([1u16, 2]);
    let b = Vector::new([30u16, 40]);
    let c = Vector::new([500u16, 600]);
    assert_eq!((a + b) + c, a + (b + c));
    assert_eq!((a + b) + c, Vector::new([531, 642]));
}

#[test]
fn adding_zero_changes_nothing() {
    let a = Vector::new([9i64, -8, 7, -6]);
    assert_eq!(a + Vector::zero(), a);
}

#[test]
fn a_vector_minus_itself_is_zero() {
    let a = Vector::new([9u8, 200, 0]);
    assert_eq!(a - a, Vector::zero());
    assert_eq!(a - a, Vector::new([0, 0, 0]));
}

#[test]
fn negating_twice_gives_the_vector_back() {
    let a = Vector::new([5i8, -128 + 1, 0, 127]);
    assert_eq!(-(-a), a);
}

#[test]
fn dividing_undoes_scaling() {
    let a = Vector::new([3i32, -4, 0]);
    assert_eq!((a * 7) / 7, a);
    assert_eq!((a * -7) / -7, a);
    let b = Vector::new([3u32, 4, 0]);
    assert_eq!((b * 5) / 5, b);
}

#[test]
fn dividing_undoes_scaling_of_floats_by_a_power_of_two() {
    let a = Vector::new([1.5f64, -0.1, 3.0]);
    assert_eq!((a * 4.0) / 4.0, a);
}

#[test]
fn ones_times_zero_is_zero() {
    assert_eq!(Vector::<3, i32>::ones() * 0, Vector::<3, i32>::zero());
    assert_eq!(Vector::<2, u64>::ones() * 0, Vector::<2, u64>::zero());
}

#[test]
fn scaling_distributes_over_addition() {
    let a = Vector::new([1i32, -2, 3]);
    let b = Vector::new([10i32, 20, -30]);
    assert_eq!((a + b) * 6, (a * 6) + (b * 6));
    assert_eq!((a + b) * 6, Vector::new([66, 108, -162]));
}
