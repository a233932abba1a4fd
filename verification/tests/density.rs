//! A spectral-density scenario: the raised-cosine window and density
//! scaling, executed as the verified plan prescribes.

use rustfft::num_complex::Complex;
use rustfft::FftPlanner;
use welch_sde::{Periodogram, SpectralDensity, WindowKind};

/// The raised-cosine weights the crate documents:
/// `0.5 * (1 - cos(2*pi*i / (len - 1)))`, one for a single sample.
fn hann(len: usize) -> Vec<f64> {
    if len == 1 {
        return vec![1.0];
    }
    (0..len)
        .map(|i| {
            0.5 * (1.0 - (2.0 * std::f64::consts::PI * i as f64 / (len as f64 - 1.0)).cos())
        })
        .collect()
}

/// Runs the spectral-density estimate the plan prescribes: averaged
/// squared transform magnitudes of the Hann-tapered segments, divided
/// by the sampling frequency times the sum of squared weights, with the
/// fold-marked bins doubled.
fn density_periodogram(signal: &[f64], segment_length: usize, overlap: usize, fs: f64) -> Periodogram {
    let sd = SpectralDensity::builder(
        signal.iter().map(|s| s.to_bits()).collect(),
        fs.to_bits(),
    )
    .segment_length(segment_length)
    .overlap(overlap)
    .build_spectral_density()
    .expect("configuration is valid");
    assert_eq!(sd.welch.window, WindowKind::Hann);
    let segments = sd.segments();
    let k = sd.k();
    let bins = sd.bin_count();
    let mask = sd.fold_mask();
    let coeffs = hann(segment_length);
    let sum_w2: f64 = coeffs.iter().map(|c| c * c).sum();
    let mut planner = FftPlanner::<f64>::new();
    let fft = planner.plan_fft_forward(segment_length);
    let mut acc = vec![0.0f64; bins];
    for seg in &segments {
        let mut buf: Vec<Complex<f64>> = seg
            .iter()
            .zip(coeffs.iter())
            .map(|(&b, &c)| Complex::new(f64::from_bits(b) * c, 0.0))
            .collect();
        fft.process(&mut buf);
        for i in 0..bins {
            acc[i] += buf[i].norm_sqr();
        }
    }
    for i in 0..bins {
        acc[i] /= k as f64;
        acc[i] /= fs * sum_w2;
        if mask[i] {
            acc[i] *= 2.0;
        }
    }
    Periodogram::new(acc.iter().map(|v| v.to_bits()).collect(), fs.to_bits(), segment_length)
}

#[test]
fn hann_density_of_a_unit_signal() {
    // One segment of four unit samples, unit sampling frequency.  The
    // Hann weights are [0, 3/4, 3/4, 0]; the tapered segment transforms
    // to squared magnitudes [9/4, 9/8, 0] one-sided, and the sum of
    // squared weights is 9/8, so the scaled bins are [2, 1, 0] and the
    // fold doubles the middle one: [2, 2, 0].
    let signal = [1.0f64; 4];
    let p = density_periodogram(&signal, 4, 0, 1.0);
    let bins: Vec<f64> = p.values().iter().map(|&b| f64::from_bits(b)).collect();
    assert_eq!(bins.len(), 3);
    assert!((bins[0] - 2.0).abs() < 1e-12, "zero-frequency bin: {}", bins[0]);
    assert!((bins[1] - 2.0).abs() < 1e-12, "interior bin: {}", bins[1]);
    assert!(bins[2].abs() < 1e-12, "Nyquist bin: {}", bins[2]);
}

#[test]
fn density_estimate_is_non_negative_and_one_sided() {
    let signal: Vec<f64> = (0..240).map(|i| (i as f64 * 0.7).sin()).collect();
    let p = density_periodogram(&signal, 30, 15, 60.0);
    assert_eq!(p.len(), 16);
    for (i, b) in p.values().iter().enumerate() {
        assert!(f64::from_bits(*b) >= 0.0, "bin {i} is negative");
    }
}
