//! Order extension and status interpretation for complex Bessel functions.
//!
//! A numeric kernel evaluates the modified Bessel function `I` and the
//! Hankel functions `H1` and `H2` (and the companion function `K`) for a
//! complex argument and a real order that is not negative. This library
//! extends the kernel to orders of either sign. It decides
//!
//! - which inputs are rejected before the kernel is touched,
//! - which routine is called, and with which order, argument, scaling and
//!   count,
//! - what the status that a call reports means: nothing, warnings, or the
//!   end of the evaluation,
//! - whether a second call is needed, and
//! - which connection formula turns the values of the kernel into the
//!   result.
//!
//! The library makes no kernel call and does no floating-point arithmetic
//! itself. Real numbers are held as binary64 bit patterns (`f64::to_bits`);
//! an evaluation is a short sequence of [`evaluation::Step`]s that the
//! caller carries out. The entry points in [`zbesi`] and [`zbesh`] return
//! the first step, [`evaluation::advance`] every later one.

pub mod amos_errors;
pub mod evaluation;
pub mod kernel;
pub mod order;
pub mod zbesh;
pub mod zbesi;
