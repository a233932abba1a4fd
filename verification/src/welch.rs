//! The Welch estimator's verified plan.
//!
//! A [`Welch`] value is a validated configuration: the signal (as sample
//! bit patterns), the sampling frequency, the segmentation parameters
//! and the window choice, fixed at construction by
//! [`crate::builder::Builder::build_welch`] and never mutated.  Its
//! methods answer, with exact contracts, every discrete question the
//! estimation recipe asks: how many segments there are, which samples
//! each segment holds, how many one-sided bins the periodogram has, and
//! which bins are doubled when the discarded negative-frequency half of
//! the spectrum is folded back in.

use crate::sample::f64_bits_positive;
use crate::window::WindowKind;
use vstd::arithmetic::div_mod::{lemma_fundamental_div_mod, lemma_mod_bound};
use vstd::arithmetic::mul::lemma_mul_inequality;
use vstd::prelude::*;

verus! {

/// The distance between the first samples of two consecutive segments.
pub open spec fn spec_stride(segment_length: int, overlap: int) -> int {
    segment_length - overlap
}

/// How many full segments of length `segment_length` fit in a signal of
/// `n` samples when consecutive segments start `stride` samples apart:
/// one, plus one more for each further whole stride.
pub open spec fn spec_segment_count(n: int, segment_length: int, overlap: int) -> int {
    1 + (n - segment_length) / spec_stride(segment_length, overlap)
}

/// The number of one-sided periodogram bins for a segment of
/// `segment_length` samples: the non-redundant half of the transform,
/// `segment_length / 2 + 1` (integer division), Nyquist bin included
/// when the length is even.
pub open spec fn spec_bin_count(segment_length: int) -> int {
    segment_length / 2 + 1
}

/// Whether one-sided bin `i` is doubled when the negative-frequency
/// half of the spectrum is folded in: every bin strictly between zero
/// frequency and the Nyquist frequency.  Bin zero holds the zero
/// frequency, and for an even segment length the last bin,
/// `segment_length / 2`, holds the Nyquist frequency; neither has a
/// negative-frequency mirror, so neither is doubled.
pub open spec fn spec_bin_is_folded(segment_length: int, i: int) -> bool {
    0 < i && !(segment_length % 2 == 0 && i == segment_length / 2)
}

/// A validated Welch estimation plan.
#[derive(Clone, Debug, PartialEq)]
pub struct Welch {
    /// The signal's samples, as double-precision bit patterns.
    pub signal: Vec<u64>,
    /// The sampling frequency in hertz, as a double-precision bit
    /// pattern; strictly positive.
    pub fs_bits: u64,
    /// The length of every segment, in samples.
    pub segment_length: usize,
    /// How many samples consecutive segments share.
    pub overlap: usize,
    /// The tapering window applied to every segment.
    pub window: WindowKind,
}

impl Welch {
    /// The configuration invariants established by construction: at
    /// least one full segment fits the signal, segments advance by a
    /// positive stride, and the sampling frequency is positive.
    pub open spec fn wf(self) -> bool {
        &&& 1 <= self.segment_length <= self.signal@.len()
        &&& self.overlap < self.segment_length
        &&& f64_bits_positive(self.fs_bits)
    }

    /// The samples of segment `i`: the `segment_length`-wide view of
    /// the signal starting `i` strides in.
    pub open spec fn spec_segment(self, i: int) -> Seq<u64> {
        self.signal@.subrange(
            i * spec_stride(self.segment_length as int, self.overlap as int),
            i * spec_stride(self.segment_length as int, self.overlap as int)
                + self.segment_length,
        )
    }

    /// The number of segments the plan covers.
    pub open spec fn spec_k(self) -> int {
        spec_segment_count(
            self.signal@.len() as int,
            self.segment_length as int,
            self.overlap as int,
        )
    }

    /// The distance between consecutive segment starts.
    pub fn stride(&self) -> (r: usize)
        requires
            self.wf(),
        ensures
            r == spec_stride(self.segment_length as int, self.overlap as int),
    {
        self.segment_length - self.overlap
    }

    /// The number of segments, `k = 1 + (n - segment_length) / stride`.
    pub fn k(&self) -> (r: usize)
        requires
            self.wf(),
        ensures
            r == self.spec_k(),
            1 <= r <= self.signal@.len(),
    {
        let n = self.signal.len();
        let stride = self.segment_length - self.overlap;
        let q = (n - self.segment_length) / stride;
        proof {
            lemma_div_le((n - self.segment_length) as int, stride as int);
        }
        1 + q
    }

    /// The number of one-sided periodogram bins,
    /// `segment_length / 2 + 1`.
    pub fn bin_count(&self) -> (r: usize)
        requires
            self.wf(),
        ensures
            r == spec_bin_count(self.segment_length as int),
    {
        self.segment_length / 2 + 1
    }

    /// Whether one-sided bin `i` is doubled by the fold of the
    /// negative-frequency half: true for every bin but the zero
    /// frequency and, for an even segment length, the Nyquist bin.
    pub fn bin_is_folded(&self, i: usize) -> (r: bool)
        ensures
            r == spec_bin_is_folded(self.segment_length as int, i as int),
    {
        0 < i && !(self.segment_length % 2 == 0 && i == self.segment_length / 2)
    }

    /// One flag per one-sided bin: whether the fold doubles it.
    pub fn fold_mask(&self) -> (r: Vec<bool>)
        requires
            self.wf(),
        ensures
            r@.len() == spec_bin_count(self.segment_length as int),
            forall|i: int|
                0 <= i < r@.len() ==> r@[i] == spec_bin_is_folded(
                    self.segment_length as int,
                    i,
                ),
    {
        let count = self.bin_count();
        let mut r: Vec<bool> = Vec::new();
        let mut j: usize = 0;
        while j < count
            invariant
                j <= count,
                r@.len() == j,
                count == spec_bin_count(self.segment_length as int),
                forall|i: int|
                    0 <= i < j ==> r@[i] == spec_bin_is_folded(
                        self.segment_length as int,
                        i,
                    ),
            decreases count - j,
        {
            r.push(self.bin_is_folded(j));
            j = j + 1;
        }
        r
    }

    /// A copy of segment `i`'s samples.
    pub fn segment(&self, i: usize) -> (r: Vec<u64>)
        requires
            self.wf(),
            i < self.spec_k(),
        ensures
            r@ == self.spec_segment(i as int),
    {
        proof {
            lemma_segment_fits(
                self.signal@.len() as int,
                self.segment_length as int,
                self.overlap as int,
                i as int,
            );
        }
        let n = self.signal.len();
        let stride = self.segment_length - self.overlap;
        let start = i * stride;
        let mut r: Vec<u64> = Vec::new();
        let mut j: usize = 0;
        while j < self.segment_length
            invariant
                self.wf(),
                j <= self.segment_length,
                start == i * spec_stride(self.segment_length as int, self.overlap as int),
                n == self.signal@.len(),
                start + self.segment_length <= n,
                r@.len() == j,
                forall|m: int| 0 <= m < j ==> r@[m] == self.signal@[start + m],
            decreases self.segment_length - j,
        {
            r.push(self.signal[start + j]);
            j = j + 1;
        }
        proof {
            assert(r@ =~= self.spec_segment(i as int));
        }
        r
    }

    /// Copies of all `k` segments, in order.
    pub fn segments(&self) -> (r: Vec<Vec<u64>>)
        requires
            self.wf(),
        ensures
            r@.len() == self.spec_k(),
            forall|i: int| 0 <= i < r@.len() ==> r@[i]@ == self.spec_segment(i),
    {
        let k = self.k();
        let mut r: Vec<Vec<u64>> = Vec::new();
        let mut j: usize = 0;
        while j < k
            invariant
                self.wf(),
                j <= k,
                k == self.spec_k(),
                r@.len() == j,
                forall|i: int| 0 <= i < j ==> r@[i]@ == self.spec_segment(i),
            decreases k - j,
        {
            let seg = self.segment(j);
            r.push(seg);
            j = j + 1;
        }
        r
    }
}

/// For non-negative `x` and positive `d`, the quotient does not exceed
/// the dividend.
proof fn lemma_div_le(x: int, d: int)
    requires
        0 <= x,
        1 <= d,
    ensures
        0 <= x / d <= x,
{
    lemma_fundamental_div_mod(x, d);
    lemma_mod_bound(x, d);
    if x / d < 0 {
        lemma_mul_inequality(x / d, -1, d);
    }
    if x / d > x {
        lemma_mul_inequality(x + 1, x / d, d);
        lemma_mul_inequality(1, d, x + 1);
    }
}

/// With a single segment — which happens exactly when the segment
/// length equals the signal length — the Welch estimate reduces to the
/// one plain periodogram: the plan covers one segment, and that segment
/// is the whole signal, so averaging over it changes nothing.
pub proof fn lemma_single_segment(w: Welch)
    requires
        w.wf(),
        w.segment_length == w.signal@.len(),
    ensures
        w.spec_k() == 1,
        w.spec_segment(0) == w.signal@,
{
    let stride = spec_stride(w.segment_length as int, w.overlap as int);
    let q: int = 0int / stride;
    lemma_fundamental_div_mod(0, stride);
    lemma_mod_bound(0, stride);
    if q > 0 {
        lemma_mul_inequality(1, q, stride);
    }
    if q < 0 {
        lemma_mul_inequality(q, -1, stride);
    }
    assert(0int * stride == 0) by (nonlinear_arith);
    assert(w.spec_segment(0) =~= w.signal@);
}

/// The plan is deterministic: the contract of [`Welch::segments`] pins
/// its result completely, so any two values that satisfy it — in
/// particular the results of two calls on the same unmutated plan — are
/// equal, sample for sample.
pub proof fn lemma_segments_deterministic(w: Welch, a: Seq<Seq<u64>>, b: Seq<Seq<u64>>)
    requires
        a.len() == w.spec_k(),
        forall|i: int| 0 <= i < a.len() ==> a[i] == w.spec_segment(i),
        b.len() == w.spec_k(),
        forall|i: int| 0 <= i < b.len() ==> b[i] == w.spec_segment(i),
    ensures
        a == b,
{
    assert(a =~= b);
}

/// Every segment the count admits lies wholly inside the signal: for
/// `i < k`, the segment starting `i` strides in ends at or before
/// sample `n`.
pub proof fn lemma_segment_fits(n: int, segment_length: int, overlap: int, i: int)
    requires
        1 <= segment_length <= n,
        0 <= overlap < segment_length,
        0 <= i < spec_segment_count(n, segment_length, overlap),
    ensures
        0 <= i * spec_stride(segment_length, overlap),
        i * spec_stride(segment_length, overlap) + segment_length <= n,
{
    let stride = spec_stride(segment_length, overlap);
    let q = (n - segment_length) / stride;
    lemma_fundamental_div_mod(n - segment_length, stride);
    lemma_mod_bound(n - segment_length, stride);
    lemma_mul_inequality(0, i, stride);
    lemma_mul_inequality(i, q, stride);
    assert(stride * q == q * stride) by (nonlinear_arith);
}

} // verus!
