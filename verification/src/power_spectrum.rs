//! The power-spectrum configuration of the Welch estimator.
//!
//! A [`PowerSpectrum`] fixes the two choices that distinguish a power
//! spectrum from a spectral density: the rectangular window (no taper),
//! and amplitude-preserving scaling — every averaged bin is divided by
//! the square of the window sum.  With the rectangular window that sum
//! is exactly the segment length, so the divisor is exactly
//! `segment_length * segment_length`, and [`PowerSpectrum::scale_divisor`]
//! returns it as an integer.  Everything else is the wrapped [`Welch`]
//! plan, unchanged.

use crate::builder::{Build, BuildError, Builder};
use crate::sample::F64_ONE_BITS;
use crate::welch::{spec_bin_count, spec_bin_is_folded, Welch};
use crate::window::WindowKind;
use vstd::prelude::*;

verus! {

/// A Welch plan fixed to the rectangular window and power-spectrum
/// scaling.
pub struct PowerSpectrum {
    /// The wrapped plan.
    pub welch: Welch,
}

impl PowerSpectrum {
    /// A configuration for `signal` with the power-spectrum defaults:
    /// the rectangular window, unit sampling frequency (a power
    /// spectrum's bins do not depend on it), and the default
    /// segmentation of [`Builder::new`].
    pub fn builder(signal: Vec<u64>) -> (r: Builder)
        ensures
            r.signal@ == signal@,
            r.fs_bits == F64_ONE_BITS,
            r.segment_length == crate::builder::spec_default_segment_length(
                signal@.len() as int,
            ),
            r.overlap == r.segment_length / 2,
            r.window == WindowKind::One,
    {
        Builder::new(signal).window(WindowKind::One)
    }

    /// The power-spectrum scaling divisor, `(sum of window
    /// coefficients) squared`.  The rectangular window's coefficients
    /// are `segment_length` ones, their sum is exactly the segment
    /// length, so the divisor is exactly the segment length squared.
    pub fn scale_divisor(&self) -> (r: u128)
        requires
            self.welch.wf(),
            self.welch.window == WindowKind::One,
        ensures
            r == (self.welch.segment_length as int) * (self.welch.segment_length as int),
    {
        let l = self.welch.segment_length as u128;
        proof {
            assert((self.welch.segment_length as u128 as int) * (self.welch.segment_length
                as u128 as int) < 0x1_0000_0000_0000_0000_0000_0000_0000_0000) by (nonlinear_arith)
                requires
                    0 <= self.welch.segment_length as u128 as int
                        <= 0xFFFF_FFFF_FFFF_FFFF,
            ;
        }
        l * l
    }

    /// The number of segments averaged.
    pub fn k(&self) -> (r: usize)
        requires
            self.welch.wf(),
        ensures
            r == self.welch.spec_k(),
    {
        self.welch.k()
    }

    /// The number of one-sided bins of the estimate.
    pub fn bin_count(&self) -> (r: usize)
        requires
            self.welch.wf(),
        ensures
            r == spec_bin_count(self.welch.segment_length as int),
    {
        self.welch.bin_count()
    }

    /// Copies of the segments the estimate averages over.  The
    /// rectangular window leaves every sample unchanged, so these are
    /// also the windowed segments.
    pub fn segments(&self) -> (r: Vec<Vec<u64>>)
        requires
            self.welch.wf(),
        ensures
            r@.len() == self.welch.spec_k(),
            forall|i: int| 0 <= i < r@.len() ==> r@[i]@ == self.welch.spec_segment(i),
    {
        self.welch.segments()
    }

    /// One flag per bin: whether the fold of the negative-frequency
    /// half doubles it.
    pub fn fold_mask(&self) -> (r: Vec<bool>)
        requires
            self.welch.wf(),
        ensures
            r@.len() == spec_bin_count(self.welch.segment_length as int),
            forall|i: int|
                0 <= i < r@.len() ==> r@[i] == spec_bin_is_folded(
                    self.welch.segment_length as int,
                    i,
                ),
    {
        self.welch.fold_mask()
    }
}

impl Builder {
    /// Validates the configuration and fixes a power-spectrum
    /// estimator, exactly as [`Builder::build_welch`] does the plan.
    pub fn build_power_spectrum(&self) -> (r: Result<PowerSpectrum, BuildError>)
        ensures
            r.is_ok() <==> self.is_valid(),
            r matches Err(e) ==> Some(e) == self.spec_error(),
            r matches Ok(p) ==> {
                &&& p.welch.signal@ == self.signal@
                &&& p.welch.fs_bits == self.fs_bits
                &&& p.welch.segment_length == self.segment_length
                &&& p.welch.overlap == self.overlap
                &&& p.welch.window == self.window
                &&& p.welch.wf()
            },
    {
        match self.build_welch() {
            Ok(welch) => Ok(PowerSpectrum { welch }),
            Err(e) => Err(e),
        }
    }
}

impl Build<PowerSpectrum> for Builder {
    open spec fn build_valid(&self) -> bool {
        self.is_valid()
    }

    open spec fn build_error(&self) -> Option<BuildError> {
        self.spec_error()
    }

    open spec fn build_ok(&self, built: PowerSpectrum) -> bool {
        &&& built.welch.signal@ == self.signal@
        &&& built.welch.fs_bits == self.fs_bits
        &&& built.welch.segment_length == self.segment_length
        &&& built.welch.overlap == self.overlap
        &&& built.welch.window == self.window
        &&& built.welch.wf()
    }

    fn build(&self) -> Result<PowerSpectrum, BuildError> {
        self.build_power_spectrum()
    }
}

} // verus!
