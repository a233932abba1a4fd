//! Tapering windows for the Welch estimator.
//!
//! A window is a sequence of `segment_length` non-negative weights that
//! each segment is multiplied with before it is transformed.  The crate
//! distinguishes the two variants the estimator uses; the rectangular
//! window's coefficients are exact (every weight is one), so they are
//! produced here with a full contract.  The raised-cosine (Hann)
//! coefficients are transcendental, so only their defining formula is
//! documented here and a caller evaluates it.

use crate::sample::F64_ONE_BITS;
use vstd::prelude::*;

verus! {

/// The tapering window a Welch estimator applies to every segment.
#[derive(Clone, Copy, PartialEq, Eq, Structural, Debug)]
pub enum WindowKind {
    /// The rectangular window: every coefficient equals one, so the
    /// windowed segment equals the segment.  Used by the power-spectrum
    /// configuration; its window sum and its sum of squared
    /// coefficients both equal the segment length exactly.
    One,
    /// The raised-cosine (Hann) taper: for a segment length `l > 1`,
    /// coefficient `i` equals `0.5 * (1 - cos(2*pi*i / (l - 1)))`; for
    /// `l == 1` the single coefficient is one.  Used by the
    /// spectral-density configuration.  The cosine is evaluated by the
    /// caller; this crate only records which window was chosen.
    Hann,
}

/// The rectangular window's coefficients for a segment of length `len`:
/// `len` copies of the value one, as bit patterns.
pub fn one_coefficients(len: usize) -> (r: Vec<u64>)
    ensures
        r@.len() == len,
        forall|i: int| 0 <= i < len ==> r@[i] == F64_ONE_BITS,
{
    let mut r: Vec<u64> = Vec::new();
    let mut j: usize = 0;
    while j < len
        invariant
            j <= len,
            r@.len() == j,
            forall|i: int| 0 <= i < j ==> r@[i] == F64_ONE_BITS,
        decreases len - j,
    {
        r.push(F64_ONE_BITS);
        j = j + 1;
    }
    r
}

} // verus!
