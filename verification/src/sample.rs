//! The sample encoding used throughout the crate.
//!
//! Verus does not model IEEE-754 arithmetic, so the crate carries every
//! real-valued quantity — signal samples, window coefficients, the
//! sampling frequency, periodogram bins — as the raw 64-bit pattern of a
//! double-precision value, the value that `f64::to_bits` gives and
//! `f64::from_bits` takes at the boundary.  The crate treats such a
//! pattern as opaque everywhere but here.
//!
//! The interpreted facts are the two order tests the crate's
//! invariants need, both against zero.  For a double-precision value
//! `x` with bit pattern `b`:
//!
//! - `x > 0.0` holds exactly when `0 < b <= 0x7FF0_0000_0000_0000`
//!   (configuration validation's test on the sampling frequency);
//! - `x >= 0.0` holds exactly when `b <= 0x7FF0_0000_0000_0000` or
//!   `b == 0x8000_0000_0000_0000` (the periodogram's bin invariant).
//!
//! The bounds' reach: `b == 0` is positive zero; patterns
//! `1 ..= 0x7FEF_FFFF_FFFF_FFFF` are the positive subnormal and normal
//! values, in increasing order; `0x7FF0_0000_0000_0000` is positive
//! infinity (which compares greater than zero); the larger sign-clear
//! patterns are NaNs (every comparison with a NaN is false); and a set
//! sign bit marks negative zero — which equals zero, hence the one
//! sign-set pattern the second test admits — or a negative or NaN
//! value, none of which reaches zero.

use vstd::prelude::*;

verus! {

/// The bit pattern of the double-precision value one: exponent field
/// `0x3FF` (unbiased exponent zero), zero significand, clear sign bit.
pub const F64_ONE_BITS: u64 = 0x3FF0_0000_0000_0000;

/// The bit pattern of double-precision positive infinity: exponent
/// field all ones, zero significand, clear sign bit.  The largest bit
/// pattern whose value compares greater than zero.
pub const F64_POSITIVE_INFINITY_BITS: u64 = 0x7FF0_0000_0000_0000;

/// Whether the double-precision value with bit pattern `b` compares
/// strictly greater than zero.  Per the module description this is
/// exactly the patterns strictly between positive zero and the first
/// sign-clear NaN, positive infinity included.
pub open spec fn f64_bits_positive(b: u64) -> bool {
    0 < b <= F64_POSITIVE_INFINITY_BITS
}

/// The order test of [`f64_bits_positive`], executed.
pub fn bits_positive(b: u64) -> (r: bool)
    ensures
        r == f64_bits_positive(b),
{
    0 < b && b <= F64_POSITIVE_INFINITY_BITS
}

/// The bit pattern of double-precision negative zero: only the sign
/// bit set.  The one pattern with a set sign bit whose value compares
/// greater than or equal to zero (negative zero equals zero).
pub const F64_NEGATIVE_ZERO_BITS: u64 = 0x8000_0000_0000_0000;

/// Whether the double-precision value with bit pattern `b` compares
/// greater than or equal to zero.  Per the module description this is
/// exactly the patterns from positive zero up to positive infinity,
/// plus negative zero.
pub open spec fn f64_bits_non_negative(b: u64) -> bool {
    b <= F64_POSITIVE_INFINITY_BITS || b == F64_NEGATIVE_ZERO_BITS
}

/// The order test of [`f64_bits_non_negative`], executed.
pub fn bits_non_negative(b: u64) -> (r: bool)
    ensures
        r == f64_bits_non_negative(b),
{
    b <= F64_POSITIVE_INFINITY_BITS || b == F64_NEGATIVE_ZERO_BITS
}

} // verus!
