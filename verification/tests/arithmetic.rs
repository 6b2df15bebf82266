use fixed_vector::vector::Vector;

#[test]
fn addition_is_component_wise() {
    let a = Vector::new([1i32, 2, 3]);
    let b = Vector::new([10i32, -20, 30]);
    assert_eq!(a + b, Vector::new([11, -18, 33]));
}

#[test]
fn addition_in_place_matches_addition() {
    let a = Vector::new([1i32, 2, 3]);
    let b = Vector::new([10i32, -20, 30]);
    let mut c = a;
    c += b;
    assert_eq!(c, Vector::new([11, -18, 33]));
    assert_eq!(c, a + b);
}

#[test]
fn subtraction_is_component_wise() {
    let a = Vector::new([10u8, 20, 30, 40]);
    let b = Vector::new([1u8, 20, 3, 0]);
    assert_eq!(a - b, Vector::new([9, 0, 27, 40]));
}

#[test]
fn subtraction_in_place_matches_subtraction() {
    let a = Vector::new([10i64, 20]);
    let b = Vector::new([15i64, -5]);
    let mut c = a;
    c -= b;
    assert_eq!(c, Vector::new([-5, 25]));
    assert_eq!(c, a - b);
}

#[test]
fn negation_is_component_wise() {
    let a = Vector::new([1i16, -2, 0]);
    assert_eq!(-a, Vector::new([-1, 2, 0]));
}

#[test]
fn scaling_multiplies_every_component() {
    let a = Vector::new([1i32, -2, 3]);
    assert_eq!(a * 4, Vector::new([4, -8, 12]));
    assert_eq!(a * 0, Vector::new([0, 0, 0]));
    assert_eq!(a * 1, a);
}

#[test]
fn scaling_in_place_matches_scaling() {
    let a = Vector::new([5u64, 6]);
    let mut c = a;
    c *= 7;
    assert_eq!(c, Vector::new([35, 42]));
    assert_eq!(c, a * 7);
}

#[test]
fn division_divides_every_component() {
    let a = Vector::new([12u32, 7, 0]);
    assert_eq!(a / 4, Vector::new([3, 1, 0]));
}

#[test]
fn signed_division_rounds_towards_zero() {
    let a = Vector::new([-7i32, 7, -8]);
    assert_eq!(a / 2, Vector::new([-3, 3, -4]));
    assert_eq!(a / -2, Vector::new([3, -3, 4]));
}

#[test]
fn division_in_place_matches_division() {
    let a = Vector::new([100i8, -50]);
    let mut c = a;
    c /= 10;
    assert_eq!(c, Vector::new([10, -5]));
    assert_eq!(c, a / 10);
}

#[test]
fn operators_leave_their_operands_unchanged() {
    let a = Vector::new([1i32, 2]);
    let b = Vector::new([3i32, 4]);
    let _ = a + b;
    let _ = a - b;
    let _ = a * 5;
    let _ = a / 1;
    let _ = -a;
    assert_eq!(a, Vector::new([1, 2]));
    assert_eq!(b, Vector::new([3, 4]));
}

#[test]
fn floating_point_components_follow_their_own_arithmetic() {
    let a = Vector::new([1.5f64, -2.0]);
    let b = Vector::new([0.25f64, 4.0]);
    assert_eq!(a + b, Vector::new([1.75, 2.0]));
    assert_eq!(a - b, Vector::new([1.25, -6.0]));
    assert_eq!(a * 2.0, Vector::new([3.0, -4.0]));
    assert_eq!(a / 2.0, Vector::new([0.75, -1.0]));
    assert_eq!(-a, Vector::new([-1.5, 2.0]));
}

#[test]
fn floating_point_division_by_zero_passes_through() {
    let a = Vector::new([1.0f32, -1.0]);
    assert_eq!(a / 0.0, Vector::new([f32::INFINITY, f32::NEG_INFINITY]));
    let b = Vector::new([0.0f64]) / 0.0;
    assert_ne!(b, b);
}
