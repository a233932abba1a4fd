//! The periodogram value object.
//!
//! A [`Periodogram`] is the immutable result of one estimation: the
//! one-sided averaged, scaled spectral estimate, one non-negative value
//! per frequency bin, as double-precision bit patterns, together with
//! the sampling frequency and segment length it was computed for.  Its
//! type invariant fixes the one-sided length and the sign: a
//! periodogram for segment length `l` always holds exactly `l / 2 + 1`
//! bins, every bin's value compares greater than or equal to zero, and
//! the frequency axis — bin `i` lies at `i * fs / l` hertz — has that
//! same length.

use crate::sample::{f64_bits_non_negative, f64_bits_positive};
use crate::welch::spec_bin_count;
use vstd::prelude::*;

verus! {

/// A one-sided spectral estimate.  A value object: created once, with
/// the bins already averaged and scaled, and never mutated.
pub struct Periodogram {
    /// The bins, as double-precision bit patterns.
    values: Vec<u64>,
    /// The sampling frequency the estimate was computed for, as a
    /// double-precision bit pattern.
    fs_bits: u64,
    /// The segment length the estimate was computed for.
    segment_length: usize,
}

impl Periodogram {
    /// Always holds, enforced at every construction: the estimate has
    /// the one-sided bin count of its segment length, every bin is
    /// non-negative, and its sampling frequency is positive.
    #[verifier::type_invariant]
    spec fn well_formed(self) -> bool {
        &&& 1 <= self.segment_length
        &&& self.values@.len() == spec_bin_count(self.segment_length as int)
        &&& forall|i: int|
            0 <= i < self.values@.len() ==> f64_bits_non_negative(#[trigger] self.values@[i])
        &&& f64_bits_positive(self.fs_bits)
    }

    /// The bins, as a mathematical sequence of bit patterns.
    pub closed spec fn spec_values(self) -> Seq<u64> {
        self.values@
    }

    /// The sampling frequency's bit pattern.
    pub closed spec fn spec_fs_bits(self) -> u64 {
        self.fs_bits
    }

    /// The segment length.
    pub closed spec fn spec_segment_length(self) -> int {
        self.segment_length as int
    }

    /// Wraps computed bins into a periodogram for the given
    /// configuration.  The caller must hand in exactly the one-sided
    /// bin count of the segment length, every bin non-negative.
    pub fn new(values: Vec<u64>, fs_bits: u64, segment_length: usize) -> (r: Periodogram)
        requires
            1 <= segment_length,
            values@.len() == spec_bin_count(segment_length as int),
            forall|i: int|
                0 <= i < values@.len() ==> f64_bits_non_negative(#[trigger] values@[i]),
            f64_bits_positive(fs_bits),
        ensures
            r.spec_values() == values@,
            r.spec_fs_bits() == fs_bits,
            r.spec_segment_length() == segment_length,
    {
        Periodogram { values, fs_bits, segment_length }
    }

    /// The number of bins: always the one-sided count,
    /// `segment_length / 2 + 1`.
    pub fn len(&self) -> (r: usize)
        ensures
            r == self.spec_values().len(),
            r == spec_bin_count(self.spec_segment_length()),
            r >= 1,
    {
        proof {
            use_type_invariant(&*self);
        }
        self.values.len()
    }

    /// Bin `i`'s bit pattern; always a non-negative value's.
    pub fn get(&self, i: usize) -> (r: u64)
        requires
            i < self.spec_values().len(),
        ensures
            r == self.spec_values()[i as int],
            f64_bits_non_negative(r),
    {
        proof {
            use_type_invariant(&*self);
        }
        self.values[i]
    }

    /// All bins, in frequency order; every one a non-negative value's
    /// bit pattern.
    pub fn values(&self) -> (r: &Vec<u64>)
        ensures
            r@ == self.spec_values(),
            forall|i: int| 0 <= i < r@.len() ==> f64_bits_non_negative(#[trigger] r@[i]),
    {
        proof {
            use_type_invariant(&*self);
        }
        &self.values
    }

    /// The sampling frequency's bit pattern; always positive.
    pub fn sampling_frequency_bits(&self) -> (r: u64)
        ensures
            r == self.spec_fs_bits(),
            f64_bits_positive(r),
    {
        proof {
            use_type_invariant(&*self);
        }
        self.fs_bits
    }

    /// The segment length the estimate was computed for.
    pub fn segment_length(&self) -> (r: usize)
        ensures
            r == self.spec_segment_length(),
            r >= 1,
    {
        proof {
            use_type_invariant(&*self);
        }
        self.segment_length
    }

    /// The length of the frequency axis, which equals the number of
    /// bins.  Bin `i` of the axis lies at `i * fs / segment_length`
    /// hertz — starting at zero and climbing by `fs / segment_length`
    /// per bin — a product its caller evaluates afresh on every
    /// request, since the axis is derived, never stored.
    pub fn frequency_bin_count(&self) -> (r: usize)
        ensures
            r == self.spec_values().len(),
            r == spec_bin_count(self.spec_segment_length()),
    {
        self.len()
    }
}

} // verus!
