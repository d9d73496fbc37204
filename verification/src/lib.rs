//! A small functional pseudo-random number generator.
//!
//! A [`Rand`] is an immutable value. Every draw takes the generator by shared
//! reference and hands back the next generator together with the drawn value;
//! the caller threads the new generator forward by shadowing the old one.

pub mod mix;
pub mod generator;
pub mod laws;

pub use generator::Rand;
