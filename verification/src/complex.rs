//! The complex number type, its conjugate, its magnitude and its zero.
use vstd::prelude::*;
use vstd::std_specs::ops::{AddSpec, NegSpec};
use std::ops::{Add, Neg};
use crate::scalar::{One, Pow, Sqrt, Zero};

verus! {

/// A complex number with real part `re` and imaginary part `im`.
///
/// The two parts are the whole of the value: two complex numbers are equal
/// exactly when their real parts are equal and their imaginary parts are.
#[derive(Debug, Hash)]
pub struct Complex<T> {
    pub re: T,
    pub im: T,
}

impl<T> Clone for Complex<T> where T: Clone {
    /// Returns a complex number whose parts are clones of the parts of
    /// `self`.
    fn clone(&self) -> (z: Self)
        ensures
            cloned(self.re, z.re),
            cloned(self.im, z.im),
    {
        Self { re: self.re.clone(), im: self.im.clone() }
    }
}

impl<T> Copy for Complex<T> where T: Copy {
}

impl<T> Complex<T> {
    /// Makes the complex number `re + im i`.
    pub fn new(re: T, im: T) -> (z: Self)
        ensures
            z.re == re,
            z.im == im,
    {
        Self { re, im }
    }
}

impl<T> Complex<T> where T: Neg<Output = T> {
    /// The conjugate of `self`: the same real part, the negated imaginary
    /// part.
    pub open spec fn conjugate_spec(self) -> Self {
        Complex { re: self.re, im: self.im.neg_spec() }
    }

    /// Returns the conjugate of `self`.
    ///
    /// The imaginary part must be one that the scalar type can negate.
    pub fn conjugate(self) -> (z: Self)
        requires
            self.im.neg_req(),
        ensures
            z.re == self.re,
            T::obeys_neg_spec() ==> z == self.conjugate_spec(),
    {
        Self { re: self.re, im: self.im.neg() }
    }
}

impl<T> Complex<T> where
    T: One + Add<Output = T> + Pow<T, Output = T> + Sqrt<Output = T> + Copy,
 {
    /// The scalar two, made by adding the multiplicative identity to
    /// itself.
    pub open spec fn two_spec() -> T {
        T::one_spec().add_spec(T::one_spec())
    }

    /// The square of the magnitude: `re^2 + im^2`.
    pub open spec fn norm_spec(self) -> T {
        self.re.pow_spec(Self::two_spec()).add_spec(self.im.pow_spec(Self::two_spec()))
    }

    /// The magnitude of `self`: the square root of `re^2 + im^2`.
    pub open spec fn abs_spec(self) -> T {
        self.norm_spec().sqrt_spec()
    }

    /// The complex numbers whose magnitude the scalar type can compute:
    /// every scalar operation on the way is within its domain.
    pub open spec fn abs_req(self) -> bool {
        &&& T::obeys_add_spec()
        &&& T::one_spec().add_req(T::one_spec())
        &&& self.re.pow_req(Self::two_spec())
        &&& self.im.pow_req(Self::two_spec())
        &&& self.re.pow_spec(Self::two_spec()).add_req(self.im.pow_spec(Self::two_spec()))
        &&& self.norm_spec().sqrt_req()
    }

    /// Returns the magnitude of `self`.
    pub fn abs(&self) -> (m: T)
        requires
            self.abs_req(),
        ensures
            m == self.abs_spec(),
    {
        let two = T::one().add(T::one());
        let pow_sum = self.re.pow(two).add(self.im.pow(two));
        pow_sum.sqrt()
    }
}

impl<T> Zero for Complex<T> where T: Zero {
    /// The complex number whose parts are both the scalar zero.
    open spec fn zero_spec() -> Self {
        Complex { re: T::zero_spec(), im: T::zero_spec() }
    }

    /// Both parts pass the scalar type's test for zero.
    open spec fn is_zero_spec(&self) -> bool {
        self.re.is_zero_spec() && self.im.is_zero_spec()
    }

    /// Returns the complex zero.
    fn zero() -> (z: Self)
        ensures
            z.re == T::zero_spec(),
            z.im == T::zero_spec(),
    {
        Self { re: T::zero(), im: T::zero() }
    }

    /// Tells whether both parts of `self` are zero.
    fn is_zero(&self) -> (b: bool)
        ensures
            b == (self.re.is_zero_spec() && self.im.is_zero_spec()),
    {
        self.re.is_zero() && self.im.is_zero()
    }
}

} // verus!
