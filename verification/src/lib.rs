//! Complex numbers over any scalar type that brings the arithmetic they need.
//!
//! [`Complex`] holds a real and an imaginary part of one scalar type `T` and
//! offers the usual arithmetic on them. Every operation is stated over the
//! scalar type's own specification: the operator traits of `std::ops` as
//! `vstd` specifies them, and the traits of [`scalar`] for the identities,
//! powers and square roots.
//!
//! The type adds no failure of its own. Where a scalar operation has a
//! precondition (no overflow, a divisor other than zero), the complex
//! operation built on it asks the same of its arguments.
//!
//! - [`scalar`]: the traits a scalar type implements beside the operators.
//! - [`integer`]: `i32` and `i64` as scalars.
//! - [`complex`]: the type, its conjugate, magnitude and zero.
//! - [`arith`]: `+ - * /` and their compound assignments.
//! - [`equality`]: `==`.
//! - [`text`]: the text form.
//! - [`laws`] and [`integer_laws`]: the algebraic laws, proved.
pub mod scalar;
pub mod integer;
pub mod complex;
pub mod arith;
pub mod equality;
pub mod text;
pub mod laws;
pub mod integer_laws;

pub use complex::Complex;
pub use scalar::{One, Pow, Sqrt, Zero};
