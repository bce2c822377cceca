// Scalar types that the caller brings. To plain Rust the specification
// functions of the scalar traits are ordinary trait items; nothing calls them.
use complex::{Complex, One, Pow, Sqrt, Zero};
use std::ops::{Add, Mul, Neg, Sub};

/// A scalar type of the caller's own: the integers modulo 7.
#[derive(Debug, Clone, Copy, PartialEq, Eq)]
struct Mod7(u8);

impl Add for Mod7 {
    type Output = Mod7;

    fn add(self, other: Mod7) -> Mod7 {
        Mod7((self.0 + other.0) % 7)
    }
}

impl Sub for Mod7 {
    type Output = Mod7;

    fn sub(self, other: Mod7) -> Mod7 {
        Mod7((self.0 + 7 - other.0) % 7)
    }
}

impl Mul for Mod7 {
    type Output = Mod7;

    fn mul(self, other: Mod7) -> Mod7 {
        Mod7((self.0 * other.0) % 7)
    }
}

impl Neg for Mod7 {
    type Output = Mod7;

    fn neg(self) -> Mod7 {
        Mod7((7 - self.0) % 7)
    }
}

impl Zero for Mod7 {
    fn zero_spec() -> Mod7 {
        Mod7(0)
    }

    fn is_zero_spec(&self) -> bool {
        self.0 == 0
    }

    fn zero() -> Mod7 {
        Mod7(0)
    }

    fn is_zero(&self) -> bool {
        self.0 == 0
    }
}

/// A floating-point scalar with the power and the square root of `f64`.
#[derive(Debug, Clone, Copy, PartialEq)]
struct Real(f64);

impl Add for Real {
    type Output = Real;

    fn add(self, other: Real) -> Real {
        Real(self.0 + other.0)
    }
}

impl One for Real {
    fn one_spec() -> Real {
        Real(1.0)
    }

    fn one() -> Real {
        Real(1.0)
    }
}

impl Pow<Real> for Real {
    type Output = Real;

    fn pow_req(self, _exp: Real) -> bool {
        true
    }

    fn pow_spec(self, exp: Real) -> Real {
        Real(self.0.powf(exp.0))
    }

    fn pow(self, exp: Real) -> Real {
        Real(self.0.powf(exp.0))
    }
}

impl Sqrt for Real {
    type Output = Real;

    fn sqrt_req(self) -> bool {
        true
    }

    fn sqrt_spec(self) -> Real {
        Real(self.0.sqrt())
    }

    fn sqrt(self) -> Real {
        Real(self.0.sqrt())
    }
}

#[test]
fn arithmetic_over_a_scalar_of_the_callers_own() {
    let a = Complex::new(Mod7(3), Mod7(5));
    let b = Complex::new(Mod7(6), Mod7(4));
    assert_eq!(a + b, Complex::new(Mod7(2), Mod7(2)));
    assert_eq!(a - b, Complex::new(Mod7(4), Mod7(1)));
    // re = 3*6 - 5*4 = -2 = 5, im = 5*6 + 3*4 = 42 = 0
    assert_eq!(a * b, Complex::new(Mod7(5), Mod7(0)));
    assert_eq!(a.conjugate(), Complex::new(Mod7(3), Mod7(2)));
    assert_eq!(a.conjugate().conjugate(), a);
    assert_eq!(a + Complex::zero(), a);
    assert_eq!(a - a, Complex::zero());
    assert!((a - a).is_zero());
}

#[test]
fn magnitude_over_a_floating_point_scalar() {
    assert_eq!(Complex::new(Real(3.0), Real(4.0)).abs(), Real(5.0));
    assert_eq!(Complex::new(Real(-3.0), Real(0.0)).abs(), Real(3.0));
    assert_eq!(Complex::new(Real(0.0), Real(0.0)).abs(), Real(0.0));
    let m = Complex::new(Real(1.0), Real(1.0)).abs();
    assert!((m.0 - 2.0f64.sqrt()).abs() < 1e-12);
}

#[test]
fn arithmetic_over_floating_point_parts() {
    let a = Complex::new(1.5, -2.0);
    let b = Complex::new(0.5, 4.0);
    assert_eq!(a + b, Complex::new(2.0, 2.0));
    assert_eq!(a - b, Complex::new(1.0, -6.0));
    // re = 1.5*0.5 - (-2)*4 = 8.75, im = (-2)*0.5 + 1.5*4 = 5
    assert_eq!(a * b, Complex::new(8.75, 5.0));
    assert_eq!(a.conjugate(), Complex::new(1.5, 2.0));
    // denominator 4 + 4 = 8, re = (2*2 + 6*2) / 8 = 2, im = (6*2 - 2*2) / 8 = 1
    assert_eq!(Complex::new(2.0, 6.0) / Complex::new(2.0, 2.0), Complex::new(2.0, 1.0));
}

#[test]
fn floating_point_division_is_undone_up_to_rounding() {
    let a = Complex::new(1.0f64, 2.0);
    let b = Complex::new(3.0f64, -7.0);
    let back = (a / b) * b;
    assert!((back.re - a.re).abs() < 1e-12);
    assert!((back.im - a.im).abs() < 1e-12);
}

#[test]
fn floating_point_division_by_zero_is_left_to_the_scalar() {
    // both numerators and the denominator are zero: 0 / 0
    let q = Complex::new(1.0f64, 1.0) / Complex::new(0.0, 0.0);
    assert!(q.re.is_nan());
    assert!(q.im.is_nan());
}
