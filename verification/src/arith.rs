//! The arithmetic operators on complex numbers.
//!
//! Each operator asks of its operands what the scalar operations it is made
//! of ask of theirs, and returns what they return: the operator's `_req`
//! function lists the scalar preconditions, its `_spec` function is the
//! result. The results are promised for scalar types whose operators meet
//! their own specifications, which the `obeys_` functions say.
//!
//! The compound assignments replace the left operand by the result of the
//! operator they are named after.
use vstd::prelude::*;
use vstd::std_specs::ops::{AddSpec, DivSpec, MulSpec, SubSpec};
use std::ops::{Add, AddAssign, Div, DivAssign, Mul, MulAssign, Sub, SubAssign};
use crate::complex::Complex;

verus! {

impl<T> vstd::std_specs::ops::AddSpecImpl for Complex<T> where T: Add<Output = T> {
    open spec fn obeys_add_spec() -> bool {
        T::obeys_add_spec()
    }

    open spec fn add_req(self, other: Self) -> bool {
        self.re.add_req(other.re) && self.im.add_req(other.im)
    }

    /// The sum, part by part.
    open spec fn add_spec(self, other: Self) -> Self {
        Complex { re: self.re.add_spec(other.re), im: self.im.add_spec(other.im) }
    }
}

impl<T> Add for Complex<T> where T: Add<Output = T> {
    type Output = Self;

    /// Returns `self + other`. The operands must meet `self.add_req(other)`.
    fn add(self, other: Self) -> (z: Self)
        ensures
            T::obeys_add_spec() ==> z.re == self.re.add_spec(other.re),
            T::obeys_add_spec() ==> z.im == self.im.add_spec(other.im),
    {
        Self { re: self.re.add(other.re), im: self.im.add(other.im) }
    }
}

impl<T> AddAssign for Complex<T> where T: Add<Output = T> + Copy {
    /// Replaces `self` by `self + other`.
    fn add_assign(&mut self, other: Self)
        requires
            old(self).add_req(other),
        ensures
            Self::obeys_add_spec() ==> *final(self) == old(self).add_spec(other),
    {
        *self = (*self).add(other);
    }
}

impl<T> vstd::std_specs::ops::SubSpecImpl for Complex<T> where T: Sub<Output = T> {
    open spec fn obeys_sub_spec() -> bool {
        T::obeys_sub_spec()
    }

    open spec fn sub_req(self, other: Self) -> bool {
        self.re.sub_req(other.re) && self.im.sub_req(other.im)
    }

    /// The difference, part by part.
    open spec fn sub_spec(self, other: Self) -> Self {
        Complex { re: self.re.sub_spec(other.re), im: self.im.sub_spec(other.im) }
    }
}

impl<T> Sub for Complex<T> where T: Sub<Output = T> {
    type Output = Self;

    /// Returns `self - other`. The operands must meet `self.sub_req(other)`.
    fn sub(self, other: Self) -> (z: Self)
        ensures
            T::obeys_sub_spec() ==> z.re == self.re.sub_spec(other.re),
            T::obeys_sub_spec() ==> z.im == self.im.sub_spec(other.im),
    {
        Self { re: self.re.sub(other.re), im: self.im.sub(other.im) }
    }
}

impl<T> SubAssign for Complex<T> where T: Sub<Output = T> + Copy {
    /// Replaces `self` by `self - other`.
    fn sub_assign(&mut self, other: Self)
        requires
            old(self).sub_req(other),
        ensures
            Self::obeys_sub_spec() ==> *final(self) == old(self).sub_spec(other),
    {
        *self = (*self).sub(other);
    }
}

impl<T> vstd::std_specs::ops::MulSpecImpl for Complex<T> where
    T: Add<Output = T> + Sub<Output = T> + Mul<Output = T> + Copy,
 {
    open spec fn obeys_mul_spec() -> bool {
        T::obeys_add_spec() && T::obeys_sub_spec() && T::obeys_mul_spec()
    }

    open spec fn mul_req(self, other: Self) -> bool {
        &&& T::obeys_mul_spec()
        &&& self.re.mul_req(other.re)
        &&& self.im.mul_req(other.im)
        &&& self.im.mul_req(other.re)
        &&& self.re.mul_req(other.im)
        &&& self.re.mul_spec(other.re).sub_req(self.im.mul_spec(other.im))
        &&& self.im.mul_spec(other.re).add_req(self.re.mul_spec(other.im))
    }

    /// The product: `re = re1 re2 - im1 im2`, `im = im1 re2 + re1 im2`.
    open spec fn mul_spec(self, other: Self) -> Self {
        Complex {
            re: self.re.mul_spec(other.re).sub_spec(self.im.mul_spec(other.im)),
            im: self.im.mul_spec(other.re).add_spec(self.re.mul_spec(other.im)),
        }
    }
}

impl<T> Mul for Complex<T> where
    T: Add<Output = T> + Sub<Output = T> + Mul<Output = T> + Copy,
 {
    type Output = Self;

    /// Returns `self * other`. The operands must meet `self.mul_req(other)`.
    fn mul(self, other: Self) -> (z: Self)
        ensures
            T::obeys_sub_spec() ==> z.re == self.re.mul_spec(other.re).sub_spec(
                self.im.mul_spec(other.im),
            ),
            T::obeys_add_spec() ==> z.im == self.im.mul_spec(other.re).add_spec(
                self.re.mul_spec(other.im),
            ),
    {
        Self {
            re: self.re.mul(other.re).sub(self.im.mul(other.im)),
            im: self.im.mul(other.re).add(self.re.mul(other.im)),
        }
    }
}

impl<T> MulAssign for Complex<T> where
    T: Add<Output = T> + Sub<Output = T> + Mul<Output = T> + Copy,
 {
    /// Replaces `self` by `self * other`.
    fn mul_assign(&mut self, other: Self)
        requires
            old(self).mul_req(other),
        ensures
            Self::obeys_mul_spec() ==> *final(self) == old(self).mul_spec(other),
    {
        *self = (*self).mul(other);
    }
}

impl<T> Complex<T> where
    T: Add<Output = T> + Div<Output = T> + Mul<Output = T> + Sub<Output = T> + Copy,
 {
    /// What a quotient by `self` is divided by: `re^2 + im^2`.
    pub open spec fn denominator_spec(self) -> T {
        self.re.mul_spec(self.re).add_spec(self.im.mul_spec(self.im))
    }

    /// The numerator of the real part of `self / other`:
    /// `re1 re2 + im1 im2`.
    pub open spec fn real_numerator_spec(self, other: Self) -> T {
        self.re.mul_spec(other.re).add_spec(self.im.mul_spec(other.im))
    }

    /// The numerator of the imaginary part of `self / other`:
    /// `im1 re2 - re1 im2`.
    pub open spec fn imag_numerator_spec(self, other: Self) -> T {
        self.im.mul_spec(other.re).sub_spec(self.re.mul_spec(other.im))
    }
}

impl<T> vstd::std_specs::ops::DivSpecImpl for Complex<T> where
    T: Add<Output = T> + Div<Output = T> + Mul<Output = T> + Sub<Output = T> + Copy,
 {
    open spec fn obeys_div_spec() -> bool {
        T::obeys_add_spec() && T::obeys_sub_spec() && T::obeys_mul_spec() && T::obeys_div_spec()
    }

    /// The scalar type decides which divisions are defined: this type adds
    /// no test of the denominator.
    open spec fn div_req(self, other: Self) -> bool {
        &&& T::obeys_add_spec() && T::obeys_sub_spec() && T::obeys_mul_spec()
        &&& other.re.mul_req(other.re)
        &&& other.im.mul_req(other.im)
        &&& other.re.mul_spec(other.re).add_req(other.im.mul_spec(other.im))
        &&& self.re.mul_req(other.re)
        &&& self.im.mul_req(other.im)
        &&& self.re.mul_spec(other.re).add_req(self.im.mul_spec(other.im))
        &&& self.im.mul_req(other.re)
        &&& self.re.mul_req(other.im)
        &&& self.im.mul_spec(other.re).sub_req(self.re.mul_spec(other.im))
        &&& self.real_numerator_spec(other).div_req(other.denominator_spec())
        &&& self.imag_numerator_spec(other).div_req(other.denominator_spec())
    }

    /// The quotient: both numerators divided by the denominator.
    open spec fn div_spec(self, other: Self) -> Self {
        Complex {
            re: self.real_numerator_spec(other).div_spec(other.denominator_spec()),
            im: self.imag_numerator_spec(other).div_spec(other.denominator_spec()),
        }
    }
}

impl<T> Div for Complex<T> where
    T: Add<Output = T> + Div<Output = T> + Mul<Output = T> + Sub<Output = T> + Copy,
 {
    type Output = Self;

    /// Returns `self / other`. The operands must meet `self.div_req(other)`.
    fn div(self, other: Self) -> (z: Self)
        ensures
            T::obeys_div_spec() ==> z.re == self.real_numerator_spec(other).div_spec(
                other.denominator_spec(),
            ),
            T::obeys_div_spec() ==> z.im == self.imag_numerator_spec(other).div_spec(
                other.denominator_spec(),
            ),
    {
        let denominator = other.re.mul(other.re).add(other.im.mul(other.im));
        let real_numerator = self.re.mul(other.re).add(self.im.mul(other.im));
        let imag_numerator = self.im.mul(other.re).sub(self.re.mul(other.im));
        Self { re: real_numerator.div(denominator), im: imag_numerator.div(denominator) }
    }
}

impl<T> DivAssign for Complex<T> where
    T: Add<Output = T> + Div<Output = T> + Mul<Output = T> + Sub<Output = T> + Copy,
 {
    /// Replaces `self` by `self / other`.
    fn div_assign(&mut self, other: Self)
        requires
            old(self).div_req(other),
        ensures
            Self::obeys_div_spec() ==> *final(self) == old(self).div_spec(other),
    {
        *self = (*self).div(other);
    }
}

} // verus!
