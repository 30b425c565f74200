//! Complex numbers over IEEE-754 binary64 components.
//!
//! The two components of a complex value are carried as `u64` bit patterns
//! of the binary64 format. Everything the format itself determines — signs,
//! classification, bitwise reinterpretation, the byte layout — is verified
//! down to the bit level. The rounded arithmetic of the components is
//! reached only inside the trusted wrappers of the `scalar` module, and every
//! formula the library builds from it is verified against those wrappers'
//! contracts.

pub mod arith;
pub mod bits;
pub mod casts;
pub mod codec;
pub mod complex;
pub mod consts;
pub mod scalar;
pub mod trans;

pub use complex::Complex;
