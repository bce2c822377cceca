//! The algebraic laws of complex arithmetic, for every scalar type.
//!
//! Complex addition, subtraction and conjugation work part by part, so each
//! of their laws holds wherever the scalar type keeps the same law on the
//! parts of the operands. Each lemma here asks exactly that of the scalar
//! operations and states the law of the complex operation. The module
//! `integer_laws` shows what this comes to for `i32` and `i64`.
use vstd::prelude::*;
use vstd::std_specs::ops::{AddSpec, NegSpec, SubSpec};
use std::ops::{Add, Neg, Sub};
use crate::complex::Complex;
use crate::scalar::Zero;

verus! {

/// Addition commutes, `a + b == b + a`, where the scalar addition commutes
/// on the real parts and on the imaginary parts.
pub proof fn lemma_add_commutative<T: Add<Output = T>>(a: Complex<T>, b: Complex<T>)
    requires
        a.re.add_spec(b.re) == b.re.add_spec(a.re),
        a.im.add_spec(b.im) == b.im.add_spec(a.im),
    ensures
        a.add_spec(b) == b.add_spec(a),
{
}

/// Addition is associative, `(a + b) + c == a + (b + c)`, where the scalar
/// addition is associative on the real parts and on the imaginary parts.
pub proof fn lemma_add_associative<T: Add<Output = T>>(a: Complex<T>, b: Complex<T>, c: Complex<T>)
    requires
        a.re.add_spec(b.re).add_spec(c.re) == a.re.add_spec(b.re.add_spec(c.re)),
        a.im.add_spec(b.im).add_spec(c.im) == a.im.add_spec(b.im.add_spec(c.im)),
    ensures
        a.add_spec(b).add_spec(c) == a.add_spec(b.add_spec(c)),
{
}

/// Zero is the identity of addition, `a + 0 == a`, where adding the scalar
/// zero changes neither part of `a`.
pub proof fn lemma_add_zero<T: Add<Output = T> + Zero>(a: Complex<T>)
    requires
        a.re.add_spec(T::zero_spec()) == a.re,
        a.im.add_spec(T::zero_spec()) == a.im,
    ensures
        a.add_spec(Complex::<T>::zero_spec()) == a,
{
}

/// A complex number less itself is zero, `a - a == 0`, where that holds of
/// each part of `a`.
pub proof fn lemma_sub_self<T: Sub<Output = T> + Zero>(a: Complex<T>)
    requires
        a.re.sub_spec(a.re) == T::zero_spec(),
        a.im.sub_spec(a.im) == T::zero_spec(),
    ensures
        a.sub_spec(a) == Complex::<T>::zero_spec(),
{
}

/// The conjugate of the conjugate is the number itself, where negating the
/// imaginary part twice gives it back.
pub proof fn lemma_conjugate_involution<T: Neg<Output = T>>(a: Complex<T>)
    requires
        a.im.neg_spec().neg_spec() == a.im,
    ensures
        a.conjugate_spec().conjugate_spec() == a,
{
}

} // verus!
