//! Rigid motions of space by quaternions and dual quaternions.
//!
//! The numbers are fixed-point scalars ([`scalar`]): every operation is
//! total, rounds once (toward zero where it does not say otherwise), and
//! answers an overflow, a division by zero or a non-finite operand with a
//! non-finite value, which then spreads through whatever is computed from
//! it.  On top of the scalars stand
//! angles ([`angle`]), the elementary functions ([`elementary`]), vectors,
//! points and directions ([`vector3`], [`point`], [`direction`]), complex
//! and dual numbers ([`complex`], [`dual_numbers`]), quaternions
//! ([`quaternion`]) and dual quaternions ([`dual_quaternion`]).
//!
//! The ring operations are specified as exact polynomials in the raw
//! integer values ([`algebra`]) followed by a single rounding.  The laws of
//! those polynomials are proved in [`algebra_laws`], the laws of the
//! elementary functions in [`elementary_laws`], and the laws of the
//! executable operations, rounding included, in [`laws`].
pub mod algebra;
pub mod algebra_laws;
pub mod angle;
pub mod complex;
pub mod direction;
pub mod dual_numbers;
pub mod dual_quaternion;
pub mod elementary;
pub mod elementary_laws;
pub mod laws;
pub mod ops;
pub mod point;
pub mod quaternion;
pub mod scalar;
pub mod util;
pub mod vector3;
