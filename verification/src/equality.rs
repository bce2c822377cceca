//! Equality of complex numbers.
//!
//! Equality goes by the parts and nothing else, under the scalar type's own
//! equality.
use vstd::prelude::*;
use vstd::std_specs::cmp::PartialEqSpec;
use crate::complex::Complex;

verus! {

impl<T> vstd::std_specs::cmp::PartialEqSpecImpl for Complex<T> where T: PartialEq {
    open spec fn obeys_eq_spec() -> bool {
        T::obeys_eq_spec()
    }

    /// Two complex numbers are equal when their real parts are and their
    /// imaginary parts are, each by the scalar type's own equality.
    open spec fn eq_spec(&self, other: &Self) -> bool {
        self.re.eq_spec(&other.re) && self.im.eq_spec(&other.im)
    }
}

impl<T> PartialEq for Complex<T> where T: PartialEq {
    /// Tells whether `self` and `other` are equal.
    fn eq(&self, other: &Self) -> (b: bool)
        ensures
            T::obeys_eq_spec() ==> b == (self.re.eq_spec(&other.re) && self.im.eq_spec(&other.im)),
    {
        self.re == other.re && self.im == other.im
    }
}

impl<T> Eq for Complex<T> where T: Eq {
}

} // verus!
