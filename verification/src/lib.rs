//! Real and complex cepstrum extraction over a shared transform engine.
//!
//! The engine pairs a planned forward and inverse transform of one fixed
//! length with a pool of scratch buffers, one per instance, so that repeated
//! transforms allocate nothing. The extractor runs a signal through the
//! forward transform, a nonlinearity on every sample of the spectrum, and the
//! inverse transform.
//!
//! Samples are `num_complex::Complex<T>` over a floating-point type `T`. The
//! transforms and the logarithms are computed by `rustfft`, `num_complex`
//! and `num_traits`, through private functions marked
//! `#[verifier::external_body]`. The value of a floating-point result is
//! stated nowhere. A contract says instead which call made it, on which
//! operands: a sample *is* what the forward transform left of a buffer, or
//! *is* the logarithm that was computed of a magnitude.

pub mod cepstrum;
pub mod conversions;
pub mod error;
pub mod fft;
pub mod nonlinearity;
pub mod plan;
pub mod pool;
pub mod windows;

pub use cepstrum::CepstrumExtractor;
pub use conversions::ComplexToReal;
pub use error::CepstrumError;
pub use nonlinearity::Nonlinearity;
pub use rustfft::num_complex;
pub use rustfft::num_traits;
