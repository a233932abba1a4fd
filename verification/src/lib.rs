//! Estimation plan for Welch's averaged-periodogram method.
//!
//! Welch's method estimates the power spectral density (or the power
//! spectrum) of a stationary, zero-mean, uniformly sampled signal: the
//! signal is split into overlapping segments, each segment is multiplied
//! by a tapering window, each windowed segment is transformed with a
//! discrete Fourier transform, and the squared magnitudes of the first
//! `segment_length / 2 + 1` transform coefficients are averaged across
//! the segments and scaled.
//!
//! Verus does not model IEEE-754 arithmetic, so this crate verifies the
//! discrete side of the estimator and leaves the arithmetic on samples to
//! its caller.  A sample is carried through the crate as the raw 64-bit
//! pattern of a double-precision value (`f64::to_bits` at the boundary);
//! the crate never interprets a sample's bits except for the single
//! order comparison that configuration validation needs.  Verified, with
//! exact contracts:
//!
//! - configuration validation ([`Builder::build_welch`]): success exactly
//!   on the valid configurations, and which error is reported otherwise;
//! - segmentation ([`Welch::segments`]): the number of segments and the
//!   exact sample range of the signal each segment holds;
//! - the one-sided bin count ([`Welch::bin_count`], and the
//!   [`Periodogram`] type invariant), and which bins are doubled when the
//!   discarded negative-frequency half is folded back in
//!   ([`Welch::fold_mask`]);
//! - the power-spectrum scaling divisor
//!   ([`PowerSpectrum::scale_divisor`]): with the rectangular window the
//!   window sum is exactly the segment length, so the divisor is exactly
//!   the segment length squared.
//!
//! A caller owns the remaining, purely numerical steps — taper
//! coefficients for the raised-cosine window, the Fourier transform,
//! squared magnitudes, averaging and division — and every discrete
//! decision those steps need (which samples, how many bins, which bins
//! to double, what to divide by) comes out of the verified plan.

pub mod builder;
pub mod periodogram;
pub mod power_spectrum;
pub mod sample;
pub mod spectral_density;
pub mod welch;
pub mod window;

pub use builder::{Build, BuildError, Builder};
pub use periodogram::Periodogram;
pub use power_spectrum::PowerSpectrum;
pub use spectral_density::SpectralDensity;
pub use welch::Welch;
pub use window::WindowKind;
