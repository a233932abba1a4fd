//! Configuration of a Welch estimator.
//!
//! A [`Builder`] captures the signal, the sampling frequency, the
//! segmentation parameters and the window choice, starting from
//! documented defaults that fluent methods override.  Building
//! validates the configuration invariants and either returns the fixed
//! [`Welch`] plan or reports, as a [`BuildError`], exactly which
//! invariant failed; nothing is ever silently clamped.

use crate::sample::{bits_positive, f64_bits_positive, F64_ONE_BITS};
use crate::welch::Welch;
use crate::window::WindowKind;
use vstd::arithmetic::div_mod::{lemma_fundamental_div_mod, lemma_mod_bound};
use vstd::arithmetic::mul::lemma_mul_inequality;
use vstd::prelude::*;

verus! {

/// Why a configuration was rejected.  Each variant names the violated
/// invariant; [`Builder::build_welch`] reports the first violation in
/// the order the variants are declared.
#[derive(Clone, Copy, PartialEq, Eq, Structural, Debug)]
pub enum BuildError {
    /// The segment length is zero; a segment must hold at least one
    /// sample.
    ZeroSegmentLength,
    /// The overlap is at least the segment length, so consecutive
    /// segments would not advance.
    OverlapAtLeastSegmentLength,
    /// The segment length exceeds the signal length, so not even one
    /// full segment fits.
    SegmentLengthExceedsSignal,
    /// The sampling frequency is not strictly positive (zero, negative
    /// or NaN).
    NonPositiveSamplingFrequency,
}

/// A configuration produces an estimator of type `E`, or reports the
/// violated configuration invariant.  The three spec members let the
/// one `build` contract say, for every implementation, exactly when
/// building succeeds, which error is reported when it does not, and
/// what holds of the estimator it returns.
pub trait Build<E> {
    /// Whether this configuration builds successfully.
    spec fn build_valid(&self) -> bool;

    /// The violated invariant a failed build reports.
    spec fn build_error(&self) -> Option<BuildError>;

    /// What a successful build guarantees of the estimator.
    spec fn build_ok(&self, built: E) -> bool;

    /// Validates the configuration and returns the estimator: success
    /// exactly on the valid configurations, the first violated
    /// invariant otherwise, nothing ever clamped.
    fn build(&self) -> (r: Result<E, BuildError>)
        ensures
            r.is_ok() <==> self.build_valid(),
            r matches Err(e) ==> Some(e) == self.build_error(),
            r matches Ok(built) ==> self.build_ok(built),
    ;
}

/// An estimator configuration.
///
/// [`Builder::new`] fills every field with the documented default; the
/// fluent methods replace one field each.  The fields are public so
/// that contracts can speak of them directly; validation happens in
/// [`Builder::build_welch`], never earlier.
#[derive(Clone)]
pub struct Builder {
    /// The signal's samples, as double-precision bit patterns.
    pub signal: Vec<u64>,
    /// The sampling frequency in hertz, as a double-precision bit
    /// pattern.  Default: one.
    pub fs_bits: u64,
    /// The length of every segment, in samples.  Default: the integer
    /// square root of the signal length (at least one), a common
    /// balance between frequency resolution and variance reduction.
    pub segment_length: usize,
    /// How many samples consecutive segments share.  Default: half the
    /// segment length, rounded down.
    pub overlap: usize,
    /// The tapering window.  Default: the raised-cosine taper.
    pub window: WindowKind,
}

impl Builder {
    /// Whether the configuration satisfies every invariant that
    /// [`Welch`] requires.
    pub open spec fn is_valid(self) -> bool {
        &&& 1 <= self.segment_length <= self.signal@.len()
        &&& self.overlap < self.segment_length
        &&& f64_bits_positive(self.fs_bits)
    }

    /// The invariant a build of this configuration reports as
    /// violated — the first one, in declaration order of
    /// [`BuildError`] — or nothing when the configuration is valid.
    pub open spec fn spec_error(self) -> Option<BuildError> {
        if self.segment_length == 0 {
            Some(BuildError::ZeroSegmentLength)
        } else if self.overlap >= self.segment_length {
            Some(BuildError::OverlapAtLeastSegmentLength)
        } else if self.segment_length > self.signal@.len() {
            Some(BuildError::SegmentLengthExceedsSignal)
        } else if !f64_bits_positive(self.fs_bits) {
            Some(BuildError::NonPositiveSamplingFrequency)
        } else {
            None
        }
    }

    /// A configuration for `signal` with every default in place: unit
    /// sampling frequency, segment length near the square root of the
    /// signal length, half-segment overlap, raised-cosine window.
    pub fn new(signal: Vec<u64>) -> (r: Builder)
        ensures
            r.signal@ == signal@,
            r.fs_bits == F64_ONE_BITS,
            r.segment_length == spec_default_segment_length(signal@.len() as int),
            r.overlap == r.segment_length / 2,
            r.window == WindowKind::Hann,
    {
        let segment_length = default_segment_length(signal.len());
        Builder {
            signal,
            fs_bits: F64_ONE_BITS,
            segment_length,
            overlap: segment_length / 2,
            window: WindowKind::Hann,
        }
    }

    /// Replaces the sampling frequency (as a double-precision bit
    /// pattern).
    pub fn sampling_frequency_bits(self, fs_bits: u64) -> (r: Builder)
        ensures
            r.signal@ == self.signal@,
            r.fs_bits == fs_bits,
            r.segment_length == self.segment_length,
            r.overlap == self.overlap,
            r.window == self.window,
    {
        Builder { fs_bits, ..self }
    }

    /// Replaces the segment length.
    pub fn segment_length(self, segment_length: usize) -> (r: Builder)
        ensures
            r.signal@ == self.signal@,
            r.fs_bits == self.fs_bits,
            r.segment_length == segment_length,
            r.overlap == self.overlap,
            r.window == self.window,
    {
        Builder { segment_length, ..self }
    }

    /// Replaces the overlap.
    pub fn overlap(self, overlap: usize) -> (r: Builder)
        ensures
            r.signal@ == self.signal@,
            r.fs_bits == self.fs_bits,
            r.segment_length == self.segment_length,
            r.overlap == overlap,
            r.window == self.window,
    {
        Builder { overlap, ..self }
    }

    /// Replaces the window.
    pub fn window(self, window: WindowKind) -> (r: Builder)
        ensures
            r.signal@ == self.signal@,
            r.fs_bits == self.fs_bits,
            r.segment_length == self.segment_length,
            r.overlap == self.overlap,
            r.window == window,
    {
        Builder { window, ..self }
    }

    /// Validates the configuration and fixes the Welch plan.
    ///
    /// Succeeds exactly on the valid configurations, with every plan
    /// field taken unchanged from the configuration; on an invalid one
    /// it reports the first violated invariant, per
    /// [`Builder::spec_error`].
    pub fn build_welch(&self) -> (r: Result<Welch, BuildError>)
        ensures
            r.is_ok() <==> self.is_valid(),
            r matches Err(e) ==> Some(e) == self.spec_error(),
            r matches Ok(w) ==> {
                &&& w.signal@ == self.signal@
                &&& w.fs_bits == self.fs_bits
                &&& w.segment_length == self.segment_length
                &&& w.overlap == self.overlap
                &&& w.window == self.window
                &&& w.wf()
            },
    {
        if self.segment_length == 0 {
            Err(BuildError::ZeroSegmentLength)
        } else if self.overlap >= self.segment_length {
            Err(BuildError::OverlapAtLeastSegmentLength)
        } else if self.segment_length > self.signal.len() {
            Err(BuildError::SegmentLengthExceedsSignal)
        } else if !bits_positive(self.fs_bits) {
            Err(BuildError::NonPositiveSamplingFrequency)
        } else {
            Ok(
                Welch {
                    signal: clone_samples(&self.signal),
                    fs_bits: self.fs_bits,
                    segment_length: self.segment_length,
                    overlap: self.overlap,
                    window: self.window,
                },
            )
        }
    }
}

impl Build<Welch> for Builder {
    open spec fn build_valid(&self) -> bool {
        self.is_valid()
    }

    open spec fn build_error(&self) -> Option<BuildError> {
        self.spec_error()
    }

    open spec fn build_ok(&self, built: Welch) -> bool {
        &&& built.signal@ == self.signal@
        &&& built.fs_bits == self.fs_bits
        &&& built.segment_length == self.segment_length
        &&& built.overlap == self.overlap
        &&& built.window == self.window
        &&& built.wf()
    }

    fn build(&self) -> Result<Welch, BuildError> {
        self.build_welch()
    }
}

/// An element-for-element copy of a sample vector.
fn clone_samples(v: &Vec<u64>) -> (r: Vec<u64>)
    ensures
        r@ == v@,
{
    let mut r: Vec<u64> = Vec::new();
    let mut j: usize = 0;
    while j < v.len()
        invariant
            j <= v@.len(),
            r@.len() == j,
            forall|m: int| 0 <= m < j ==> r@[m] == v@[m],
        decreases v@.len() - j,
    {
        r.push(v[j]);
        j = j + 1;
    }
    proof {
        assert(r@ =~= v@);
    }
    r
}

/// The default segment length for a signal of `n` samples: the integer
/// square root of `n`, or one when `n` is zero.
pub open spec fn spec_default_segment_length(n: int) -> int {
    if n == 0 {
        1
    } else {
        spec_isqrt(n)
    }
}

/// The integer square root: the unique `r` with
/// `r * r <= n < (r + 1) * (r + 1)`.
pub open spec fn spec_isqrt(n: int) -> int {
    choose|r: int| 0 <= r && #[trigger] (r * r) <= n < (r + 1) * (r + 1)
}

/// The default segment length, executed: `isqrt(n)`, or one for an
/// empty signal (building then still fails, since no segment fits an
/// empty signal).
pub fn default_segment_length(n: usize) -> (r: usize)
    ensures
        r == spec_default_segment_length(n as int),
        1 <= r,
        n >= 1 ==> r <= n,
{
    if n == 0 {
        1
    } else {
        isqrt(n)
    }
}

/// The integer square root of `n`, for positive `n`.
pub fn isqrt(n: usize) -> (r: usize)
    requires
        n >= 1,
    ensures
        r == spec_isqrt(n as int),
        1 <= r <= n,
        r * r <= n,
{
    let mut r: usize = 1;
    while r + 1 <= n / (r + 1)
        invariant
            1 <= r <= n,
            r < usize::MAX,
            (r as int) * (r as int) <= n as int,
        decreases n - r,
    {
        proof {
            lemma_le_mul_of_le_div(n as int, (r + 1) as int);
            lemma_mul_inequality(1, r as int + 1, r as int + 1);
            assert(r as int + 1 < usize::MAX as int) by (nonlinear_arith)
                requires
                    1 <= r as int + 1,
                    (r as int + 1) * (r as int + 1) <= n as int,
                    n as int <= usize::MAX as int,
                    2 <= usize::MAX as int,
            ;
        }
        r = r + 1;
    }
    proof {
        lemma_gt_mul_of_gt_div(n as int, (r + 1) as int);
        let ri = r as int;
        let ni = n as int;
        assert(exists|x: int| 0 <= x && #[trigger] (x * x) <= ni < (x + 1) * (x + 1)) by {
            assert(0 <= ri && ri * ri <= ni < (ri + 1) * (ri + 1));
        }
        let s = spec_isqrt(ni);
        assert(0 <= s && s * s <= ni < (s + 1) * (s + 1));
        assert(s == ri) by (nonlinear_arith)
            requires
                0 <= s,
                s * s <= ni < (s + 1) * (s + 1),
                0 <= ri,
                ri * ri <= ni < (ri + 1) * (ri + 1),
        ;
    }
    r
}

/// If `a <= n / a` (integer division, positive `a`, non-negative `n`)
/// then `a * a <= n`.
proof fn lemma_le_mul_of_le_div(n: int, a: int)
    requires
        0 <= n,
        1 <= a,
        a <= n / a,
    ensures
        a * a <= n,
{
    lemma_fundamental_div_mod(n, a);
    lemma_mod_bound(n, a);
    lemma_mul_inequality(a, n / a, a);
}

/// If `a > n / a` (integer division, positive `a`, non-negative `n`)
/// then `a * a > n`.
proof fn lemma_gt_mul_of_gt_div(n: int, a: int)
    requires
        0 <= n,
        1 <= a,
        a > n / a,
    ensures
        a * a > n,
{
    lemma_fundamental_div_mod(n, a);
    lemma_mod_bound(n, a);
    lemma_mul_inequality(n / a + 1, a, a);
    assert(a * (n / a) + a == (n / a + 1) * a) by (nonlinear_arith);
}

} // verus!
