use complex::{Complex, Zero};

#[test]
fn test_conjugate() {
    let a = Complex::new(1, 2);
    let res = Complex::new(1, -2);
    assert_eq!(a.conjugate(), res);
}

#[test]
fn test_abs() {
    let a = Complex::new(-3, 0);
    let b = Complex::new(0, 6);
    assert_eq!(a.abs(), 3);
    assert_eq!(b.abs(), 6)
}

#[test]
fn test_add() {
    let a = Complex::new(3, 4);
    let b = Complex::new(6, -10);
    let res = Complex::new(9, -6);

    assert_eq!(a + b, res);
}

#[test]
fn test_add_assign() {
    let mut a = Complex::new(3, 4);
    let b = Complex::new(6, -10);
    let res = Complex::new(9, -6);

    a += b;

    assert_eq!(a, res);
}

#[test]
fn test_div() {
    let a = Complex::new(20, -4);
    let b = Complex::new(3, 2);
    let res = Complex::new(4, -4);

    assert_eq!(a / b, res);
}

#[test]
fn test_div_assign() {
    let mut a = Complex::new(20, -4);
    let b = Complex::new(3, 2);
    let res = Complex::new(4, -4);

    a /= b;

    assert_eq!(a, res);
}

#[test]
fn test_mul() {
    let a = Complex::new(2, 3);
    let b = Complex::new(1, -5);
    let res = Complex::new(17, -7);

    assert_eq!(a * b, res);
}

#[test]
fn test_mul_assign() {
    let mut a = Complex::new(2, 3);
    let b = Complex::new(1, -5);
    let res = Complex::new(17, -7);

    a *= b;

    assert_eq!(a, res);
}

#[test]
fn test_sub() {
    let a = Complex::new(3, 4);
    let b = Complex::new(6, -10);
    let res = Complex::new(-3, 14);

    assert_eq!(a - b, res);
}

#[test]
fn test_sub_assign() {
    let mut a = Complex::new(3, 4);
    let b = Complex::new(6, -10);
    let res = Complex::new(-3, 14);

    a -= b;

    assert_eq!(a, res);
}

#[test]
fn test_zero() {
    let res = Complex::new(0, 0);
    assert_eq!(Complex::zero(), res);
}

#[test]
fn new_keeps_both_parts() {
    let a = Complex::new(7i64, -9i64);
    assert_eq!(a.re, 7);
    assert_eq!(a.im, -9);
}

#[test]
fn equality_is_by_parts() {
    assert_eq!(Complex::new(1, 2), Complex::new(1, 2));
    assert_ne!(Complex::new(1, 2), Complex::new(1, 3));
    assert_ne!(Complex::new(1, 2), Complex::new(2, 2));
}

#[test]
fn conjugate_keeps_a_real_number() {
    assert_eq!(Complex::new(5, 0).conjugate(), Complex::new(5, 0));
    assert_eq!(Complex::new(-5i64, -8i64).conjugate(), Complex::new(-5i64, 8i64));
}

#[test]
fn zero_is_zero() {
    assert!(Complex::<i32>::zero().is_zero());
    assert!(Complex::new(0i64, 0i64).is_zero());
}

#[test]
fn a_number_with_one_part_set_is_not_zero() {
    assert!(!Complex::new(0, 1).is_zero());
    assert!(!Complex::new(1, 0).is_zero());
    assert!(!Complex::new(-1, -1).is_zero());
}

#[test]
fn product_follows_the_formula() {
    // re = 2*4 - (-3)*5 = 23, im = (-3)*4 + 2*5 = -2
    assert_eq!(Complex::new(2, -3) * Complex::new(4, 5), Complex::new(23, -2));
    // i * i = -1
    assert_eq!(Complex::new(0, 1) * Complex::new(0, 1), Complex::new(-1, 0));
}

#[test]
fn quotient_follows_the_formula() {
    // denominator 1 + 1 = 2, re = (4*1 + 2*1) / 2 = 3, im = (2*1 - 4*1) / 2 = -1
    assert_eq!(Complex::new(4, 2) / Complex::new(1, 1), Complex::new(3, -1));
    // by a real number
    assert_eq!(Complex::new(9i64, -6i64) / Complex::new(3i64, 0i64), Complex::new(3i64, -2i64));
}

#[test]
fn quotient_rounds_each_part_towards_zero() {
    // denominator 4, numerators -14 and 6
    assert_eq!(Complex::new(-7, 3) / Complex::new(2, 0), Complex::new(-3, 1));
    assert_eq!(Complex::new(1, 0) / Complex::new(2, 0), Complex::new(0, 0));
}

#[test]
fn magnitude_is_the_rounded_down_length() {
    assert_eq!(Complex::new(3, 4).abs(), 5);
    assert_eq!(Complex::new(1, 1).abs(), 1);
    assert_eq!(Complex::new(2, 3).abs(), 3);
    assert_eq!(Complex::new(0, 0).abs(), 0);
    assert_eq!(Complex::new(-5i64, 12i64).abs(), 13);
    assert_eq!(Complex::new(30_000, 30_000).abs(), 42_426);
    assert_eq!(Complex::new(2_000_000_000i64, -2_000_000_000i64).abs(), 2_828_427_124);
}

#[test]
fn a_clone_is_equal() {
    let a = Complex::new(4, -9);
    let b = a.clone();
    assert_eq!(a, b);
    assert!(a == b);
    assert!(!(a != b));
}

#[test]
fn equality_uses_the_equality_of_the_parts() {
    assert!(Complex::new("a", "b") == Complex::new("a", "b"));
    assert!(Complex::new("a", "b") != Complex::new("b", "a"));
}
