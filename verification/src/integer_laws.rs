//! The laws of complex arithmetic over the integer scalars `i32` and `i64`.
//!
//! Integer arithmetic is exact as long as nothing overflows, so the laws of
//! addition and conjugation hold wherever the operations are defined.
//! Integer division rounds towards zero: dividing and multiplying back
//! gives the dividend only where the division leaves no remainder. The
//! magnitude is the rounded-down square root of `re^2 + im^2`.
use vstd::prelude::*;
use vstd::arithmetic::div_mod::lemma_fundamental_div_mod;
use vstd::arithmetic::power::lemma_square_is_pow2;
use vstd::math::abs;
use vstd::std_specs::ops::{AddSpec, DivSpec, MulSpec, NegSpec, SubSpec};
use crate::complex::Complex;
use crate::integer::{floor_sqrt, lemma_floor_sqrt_exists, lemma_floor_sqrt_of_square};
use crate::laws::{
    lemma_add_associative, lemma_add_commutative, lemma_add_zero, lemma_conjugate_involution,
    lemma_sub_self,
};
use crate::scalar::Zero;

verus! {

/// Integer division that leaves no remainder is undone by multiplying with
/// the divisor, also where the dividend is negative and the quotient is
/// rounded towards zero.
proof fn lemma_exact_quotient(n: int, d: int)
    requires
        d > 0,
        n % d == 0,
    ensures
        n >= 0 ==> (n / d) * d == n,
        n < 0 ==> (-((-n) / d)) * d == n,
{
    lemma_fundamental_div_mod(n, d);
    let k: int = n / d;
    assert(k * d == n) by (nonlinear_arith)
        requires
            n == d * k,
    ;
    if n < 0 {
        assert((-n) / d == -k) by (nonlinear_arith)
            requires
                n == d * k,
                d > 0,
        ;
    }
}

/// What makes `(a / b) * b == a` over the integers: if `qr` and `qi` are
/// the exact quotients of the two numerators of `(x + y i) / (c + e i)` by
/// its denominator, then `(qr + qi i) * (c + e i)` is `x + y i`.
proof fn lemma_quotient_times_divisor(x: int, y: int, c: int, e: int, qr: int, qi: int)
    requires
        c * c + e * e != 0,
        qr * (c * c + e * e) == x * c + y * e,
        qi * (c * c + e * e) == y * c - x * e,
    ensures
        qr * c - qi * e == x,
        qi * c + qr * e == y,
{
    let d: int = c * c + e * e;
    assert((qr * c - qi * e) * d == x * d && (qi * c + qr * e) * d == y * d) by (nonlinear_arith)
        requires
            d == c * c + e * e,
            qr * d == x * c + y * e,
            qi * d == y * c - x * e,
    ;
    assert(qr * c - qi * e == x) by (nonlinear_arith)
        requires
            (qr * c - qi * e) * d == x * d,
            d != 0,
    ;
    assert(qi * c + qr * e == y) by (nonlinear_arith)
        requires
            (qi * c + qr * e) * d == y * d,
            d != 0,
    ;
}

/// A sum of two squares that is not zero is positive.
proof fn lemma_sum_of_squares_positive(c: int, e: int)
    requires
        c * c + e * e != 0,
    ensures
        c * c + e * e > 0,
{
    assert(c * c >= 0 && e * e >= 0) by (nonlinear_arith);
}

/// Over `i32`, addition commutes: `a + b == b + a`.
pub proof fn lemma_add_commutative_i32(a: Complex<i32>, b: Complex<i32>)
    ensures
        a.add_spec(b) == b.add_spec(a),
{
    lemma_add_commutative(a, b);
}

/// Over `i32`, addition is associative, `(a + b) + c == a + (b + c)`,
/// where the four sums are defined.
pub proof fn lemma_add_associative_i32(a: Complex<i32>, b: Complex<i32>, c: Complex<i32>)
    requires
        a.add_req(b),
        a.add_spec(b).add_req(c),
        b.add_req(c),
        a.add_req(b.add_spec(c)),
    ensures
        a.add_spec(b).add_spec(c) == a.add_spec(b.add_spec(c)),
{
    lemma_add_associative(a, b, c);
}

/// Over `i32`, zero is the identity of addition and what a number less
/// itself gives: `a + 0 == a` and `a - a == 0`, both always defined.
pub proof fn lemma_zero_i32(a: Complex<i32>)
    ensures
        a.add_req(Complex::<i32>::zero_spec()),
        a.add_spec(Complex::<i32>::zero_spec()) == a,
        a.sub_req(a),
        a.sub_spec(a) == Complex::<i32>::zero_spec(),
{
    lemma_add_zero(a);
    lemma_sub_self(a);
}

/// Over `i32`, the conjugate of the conjugate is the number itself, where
/// the conjugate is defined: the imaginary part is not `i32::MIN`.
pub proof fn lemma_conjugate_involution_i32(a: Complex<i32>)
    requires
        a.im.neg_req(),
    ensures
        a.conjugate_spec().im.neg_req(),
        a.conjugate_spec().conjugate_spec() == a,
{
    lemma_conjugate_involution(a);
}

/// Over `i32`, division is undone by multiplication, `(a / b) * b == a`,
/// where both operations are defined and the division is exact: the
/// denominator `b.re^2 + b.im^2` divides both numerators without remainder.
pub proof fn lemma_div_mul_i32(a: Complex<i32>, b: Complex<i32>)
    requires
        a.div_req(b),
        a.div_spec(b).mul_req(b),
        a.real_numerator_spec(b) as int % b.denominator_spec() as int == 0,
        a.imag_numerator_spec(b) as int % b.denominator_spec() as int == 0,
    ensures
        a.div_spec(b).mul_spec(b) == a,
{
    let d: int = b.denominator_spec() as int;
    let q = a.div_spec(b);
    lemma_sum_of_squares_positive(b.re as int, b.im as int);
    lemma_exact_quotient(a.real_numerator_spec(b) as int, d);
    lemma_exact_quotient(a.imag_numerator_spec(b) as int, d);
    lemma_quotient_times_divisor(
        a.re as int,
        a.im as int,
        b.re as int,
        b.im as int,
        q.re as int,
        q.im as int,
    );
}

/// Over `i32`, the magnitude is defined exactly where `re^2 + im^2` fits
/// the type.
pub proof fn lemma_abs_defined_i32(a: Complex<i32>)
    ensures
        a.abs_req() <==> a.re * a.re + a.im * a.im <= i32::MAX,
{
    lemma_square_is_pow2(a.re as int);
    lemma_square_is_pow2(a.im as int);
    assert(a.re * a.re >= 0 && a.im * a.im >= 0) by (nonlinear_arith);
}

/// Over `i32`, the magnitude is the square root of `re^2 + im^2` rounded
/// down, and is never negative.
pub proof fn lemma_abs_i32(a: Complex<i32>)
    requires
        a.abs_req(),
    ensures
        a.abs_spec() == floor_sqrt(a.re * a.re + a.im * a.im),
        a.abs_spec() >= 0,
{
    lemma_square_is_pow2(a.re as int);
    lemma_square_is_pow2(a.im as int);
    lemma_floor_sqrt_exists(a.re * a.re + a.im * a.im);
}

/// Over `i32`, the magnitude of a number on the real axis is the absolute
/// value of its real part.
pub proof fn lemma_abs_real_axis_i32(a: Complex<i32>)
    requires
        a.im == 0,
        a.abs_req(),
    ensures
        a.abs_spec() == abs(a.re as int),
{
    lemma_abs_i32(a);
    lemma_floor_sqrt_of_square(a.re as int);
}

/// Over `i64`, addition commutes: `a + b == b + a`.
pub proof fn lemma_add_commutative_i64(a: Complex<i64>, b: Complex<i64>)
    ensures
        a.add_spec(b) == b.add_spec(a),
{
    lemma_add_commutative(a, b);
}

/// Over `i64`, addition is associative, `(a + b) + c == a + (b + c)`,
/// where the four sums are defined.
pub proof fn lemma_add_associative_i64(a: Complex<i64>, b: Complex<i64>, c: Complex<i64>)
    requires
        a.add_req(b),
        a.add_spec(b).add_req(c),
        b.add_req(c),
        a.add_req(b.add_spec(c)),
    ensures
        a.add_spec(b).add_spec(c) == a.add_spec(b.add_spec(c)),
{
    lemma_add_associative(a, b, c);
}

/// Over `i64`, zero is the identity of addition and what a number less
/// itself gives: `a + 0 == a` and `a - a == 0`, both always defined.
pub proof fn lemma_zero_i64(a: Complex<i64>)
    ensures
        a.add_req(Complex::<i64>::zero_spec()),
        a.add_spec(Complex::<i64>::zero_spec()) == a,
        a.sub_req(a),
        a.sub_spec(a) == Complex::<i64>::zero_spec(),
{
    lemma_add_zero(a);
    lemma_sub_self(a);
}

/// Over `i64`, the conjugate of the conjugate is the number itself, where
/// the conjugate is defined: the imaginary part is not `i64::MIN`.
pub proof fn lemma_conjugate_involution_i64(a: Complex<i64>)
    requires
        a.im.neg_req(),
    ensures
        a.conjugate_spec().im.neg_req(),
        a.conjugate_spec().conjugate_spec() == a,
{
    lemma_conjugate_involution(a);
}

/// Over `i64`, division is undone by multiplication, `(a / b) * b == a`,
/// where both operations are defined and the division is exact: the
/// denominator `b.re^2 + b.im^2` divides both numerators without remainder.
pub proof fn lemma_div_mul_i64(a: Complex<i64>, b: Complex<i64>)
    requires
        a.div_req(b),
        a.div_spec(b).mul_req(b),
        a.real_numerator_spec(b) as int % b.denominator_spec() as int == 0,
        a.imag_numerator_spec(b) as int % b.denominator_spec() as int == 0,
    ensures
        a.div_spec(b).mul_spec(b) == a,
{
    let d: int = b.denominator_spec() as int;
    let q = a.div_spec(b);
    lemma_sum_of_squares_positive(b.re as int, b.im as int);
    lemma_exact_quotient(a.real_numerator_spec(b) as int, d);
    lemma_exact_quotient(a.imag_numerator_spec(b) as int, d);
    lemma_quotient_times_divisor(
        a.re as int,
        a.im as int,
        b.re as int,
        b.im as int,
        q.re as int,
        q.im as int,
    );
}

/// Over `i64`, the magnitude is defined exactly where `re^2 + im^2` fits
/// the type.
pub proof fn lemma_abs_defined_i64(a: Complex<i64>)
    ensures
        a.abs_req() <==> a.re * a.re + a.im * a.im <= i64::MAX,
{
    lemma_square_is_pow2(a.re as int);
    lemma_square_is_pow2(a.im as int);
    assert(a.re * a.re >= 0 && a.im * a.im >= 0) by (nonlinear_arith);
}

/// Over `i64`, the magnitude is the square root of `re^2 + im^2` rounded
/// down, and is never negative.
pub proof fn lemma_abs_i64(a: Complex<i64>)
    requires
        a.abs_req(),
    ensures
        a.abs_spec() == floor_sqrt(a.re * a.re + a.im * a.im),
        a.abs_spec() >= 0,
{
    lemma_square_is_pow2(a.re as int);
    lemma_square_is_pow2(a.im as int);
    lemma_floor_sqrt_exists(a.re * a.re + a.im * a.im);
}

/// Over `i64`, the magnitude of a number on the real axis is the absolute
/// value of its real part.
pub proof fn lemma_abs_real_axis_i64(a: Complex<i64>)
    requires
        a.im == 0,
        a.abs_req(),
    ensures
        a.abs_spec() == abs(a.re as int),
{
    lemma_abs_i64(a);
    lemma_floor_sqrt_of_square(a.re as int);
}

} // verus!
