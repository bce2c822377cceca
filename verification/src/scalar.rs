//! What a scalar type must offer beyond the operators of `std::ops`.
//!
//! Each trait pairs an executable method with the specification function
//! that says what the method returns, in the manner of `add_req` and
//! `add_spec` for `std::ops::Add`. A method with a domain has a `_req`
//! predicate that callers must establish.
use vstd::prelude::*;

verus! {

/// A type with an additive identity and a test for it.
pub trait Zero: Sized {
    /// The additive identity.
    spec fn zero_spec() -> Self;

    /// The type's own test for zero.
    spec fn is_zero_spec(&self) -> bool;

    /// Returns the additive identity.
    fn zero() -> (z: Self)
        ensures
            z == Self::zero_spec(),
    ;

    /// Tells whether `self` is zero.
    fn is_zero(&self) -> (b: bool)
        ensures
            b == self.is_zero_spec(),
    ;
}

/// A type with a multiplicative identity.
pub trait One: Sized {
    /// The multiplicative identity.
    spec fn one_spec() -> Self;

    /// Returns the multiplicative identity.
    fn one() -> (u: Self)
        ensures
            u == Self::one_spec(),
    ;
}

/// Raising to a power.
pub trait Pow<Rhs>: Sized {
    /// The type of the power.
    type Output;

    /// The pairs of base and exponent on which `pow` is defined.
    spec fn pow_req(self, exp: Rhs) -> bool;

    /// `self` raised to the power `exp`.
    spec fn pow_spec(self, exp: Rhs) -> Self::Output;

    /// Returns `self` raised to the power `exp`.
    fn pow(self, exp: Rhs) -> (p: Self::Output)
        requires
            self.pow_req(exp),
        ensures
            p == self.pow_spec(exp),
    ;
}

/// Taking the square root.
pub trait Sqrt: Sized {
    /// The type of the root.
    type Output;

    /// The values that have a square root.
    spec fn sqrt_req(self) -> bool;

    /// The square root of `self`.
    spec fn sqrt_spec(self) -> Self::Output;

    /// Returns the square root of `self`.
    fn sqrt(self) -> (r: Self::Output)
        requires
            self.sqrt_req(),
        ensures
            r == self.sqrt_spec(),
    ;
}

} // verus!
