//! The spectral-density configuration of the Welch estimator.
//!
//! A [`SpectralDensity`] fixes the raised-cosine (Hann) window and
//! density scaling: every averaged bin is divided by the product of the
//! sampling frequency with the sum of the squared window coefficients,
//! so that the estimate integrates to power per unit bandwidth.  Both
//! factors of that divisor are transcendental reals, so the caller
//! evaluates the division; everything discrete — the segmentation, the
//! bin count, the fold — is the wrapped [`Welch`] plan, unchanged.

use crate::builder::{Build, BuildError, Builder};
use crate::welch::{spec_bin_count, spec_bin_is_folded, Welch};
use crate::window::WindowKind;
use vstd::prelude::*;

verus! {

/// A Welch plan fixed to the raised-cosine window and density scaling.
pub struct SpectralDensity {
    /// The wrapped plan.
    pub welch: Welch,
}

impl SpectralDensity {
    /// A configuration for `signal` sampled at the frequency with bit
    /// pattern `fs_bits`, with the spectral-density defaults: the
    /// raised-cosine window and the default segmentation of
    /// [`Builder::new`].
    pub fn builder(signal: Vec<u64>, fs_bits: u64) -> (r: Builder)
        ensures
            r.signal@ == signal@,
            r.fs_bits == fs_bits,
            r.segment_length == crate::builder::spec_default_segment_length(
                signal@.len() as int,
            ),
            r.overlap == r.segment_length / 2,
            r.window == WindowKind::Hann,
    {
        Builder::new(signal).sampling_frequency_bits(fs_bits)
    }

    /// The number of segments averaged.
    pub fn k(&self) -> (r: usize)
        requires
            self.welch.wf(),
        ensures
            r == self.welch.spec_k(),
    {
        self.welch.k()
    }

    /// The number of one-sided bins of the estimate.
    pub fn bin_count(&self) -> (r: usize)
        requires
            self.welch.wf(),
        ensures
            r == spec_bin_count(self.welch.segment_length as int),
    {
        self.welch.bin_count()
    }

    /// Copies of the segments the estimate averages over, before the
    /// window taper is applied.
    pub fn segments(&self) -> (r: Vec<Vec<u64>>)
        requires
            self.welch.wf(),
        ensures
            r@.len() == self.welch.spec_k(),
            forall|i: int| 0 <= i < r@.len() ==> r@[i]@ == self.welch.spec_segment(i),
    {
        self.welch.segments()
    }

    /// One flag per bin: whether the fold of the negative-frequency
    /// half doubles it.
    pub fn fold_mask(&self) -> (r: Vec<bool>)
        requires
            self.welch.wf(),
        ensures
            r@.len() == spec_bin_count(self.welch.segment_length as int),
            forall|i: int|
                0 <= i < r@.len() ==> r@[i] == spec_bin_is_folded(
                    self.welch.segment_length as int,
                    i,
                ),
    {
        self.welch.fold_mask()
    }
}

impl Builder {
    /// Validates the configuration and fixes a spectral-density
    /// estimator, exactly as [`Builder::build_welch`] does the plan.
    pub fn build_spectral_density(&self) -> (r: Result<SpectralDensity, BuildError>)
        ensures
            r.is_ok() <==> self.is_valid(),
            r matches Err(e) ==> Some(e) == self.spec_error(),
            r matches Ok(s) ==> {
                &&& s.welch.signal@ == self.signal@
                &&& s.welch.fs_bits == self.fs_bits
                &&& s.welch.segment_length == self.segment_length
                &&& s.welch.overlap == self.overlap
                &&& s.welch.window == self.window
                &&& s.welch.wf()
            },
    {
        match self.build_welch() {
            Ok(welch) => Ok(SpectralDensity { welch }),
            Err(e) => Err(e),
        }
    }
}

impl Build<SpectralDensity> for Builder {
    open spec fn build_valid(&self) -> bool {
        self.is_valid()
    }

    open spec fn build_error(&self) -> Option<BuildError> {
        self.spec_error()
    }

    open spec fn build_ok(&self, built: SpectralDensity) -> bool {
        &&& built.welch.signal@ == self.signal@
        &&& built.welch.fs_bits == self.fs_bits
        &&& built.welch.segment_length == self.segment_length
        &&& built.welch.overlap == self.overlap
        &&& built.welch.window == self.window
        &&& built.welch.wf()
    }

    fn build(&self) -> Result<SpectralDensity, BuildError> {
        self.build_spectral_density()
    }
}

} // verus!
