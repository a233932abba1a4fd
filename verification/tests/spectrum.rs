//! End-to-end spectral estimates: the verified plan drives an
//! executor that performs the floating-point steps (taper, transform,
//! averaging, scaling) exactly as the plan prescribes.

use rustfft::num_complex::Complex;
use rustfft::FftPlanner;
use welch_sde::{Periodogram, PowerSpectrum};

fn to_bits(samples: &[f64]) -> Vec<u64> {
    samples.iter().map(|s| s.to_bits()).collect()
}

/// Runs the power-spectrum estimate that the plan prescribes: averages
/// the squared transform magnitudes of the rectangular-windowed
/// segments, divides by the verified scale divisor, and doubles the
/// bins the fold mask marks.
fn power_spectrum_periodogram(signal: &[f64], segment_length: usize, overlap: usize, fs: f64) -> Periodogram {
    let ps = PowerSpectrum::builder(to_bits(signal))
        .segment_length(segment_length)
        .overlap(overlap)
        .sampling_frequency_bits(fs.to_bits())
        .build_power_spectrum()
        .expect("configuration is valid");
    let segments = ps.segments();
    let k = ps.k();
    let bins = ps.bin_count();
    let mask = ps.fold_mask();
    let divisor = ps.scale_divisor() as f64;
    let mut planner = FftPlanner::<f64>::new();
    let fft = planner.plan_fft_forward(segment_length);
    let mut acc = vec![0.0f64; bins];
    for seg in &segments {
        // Rectangular window: the windowed segment is the segment.
        let mut buf: Vec<Complex<f64>> =
            seg.iter().map(|&b| Complex::new(f64::from_bits(b), 0.0)).collect();
        fft.process(&mut buf);
        for i in 0..bins {
            acc[i] += buf[i].norm_sqr();
        }
    }
    for i in 0..bins {
        acc[i] /= k as f64;
        acc[i] /= divisor;
        if mask[i] {
            acc[i] *= 2.0;
        }
    }
    Periodogram::new(acc.iter().map(|v| v.to_bits()).collect(), fs.to_bits(), segment_length)
}

fn bins_of(p: &Periodogram) -> Vec<f64> {
    p.values().iter().map(|&b| f64::from_bits(b)).collect()
}

/// The frequency axis the estimate belongs to: bin `i` at
/// `i * fs / segment_length` hertz.
fn frequency_axis(p: &Periodogram) -> Vec<f64> {
    let fs = f64::from_bits(p.sampling_frequency_bits());
    let l = p.segment_length() as f64;
    (0..p.frequency_bin_count()).map(|i| i as f64 * fs / l).collect()
}

#[test]
fn dc_signal_concentrates_at_bin_zero() {
    // Eight unit samples at 8 Hz, two disjoint rectangular segments of
    // four samples: each segment transforms to magnitude 4 at the zero
    // frequency and zero elsewhere, so the averaged, scaled estimate is
    // [16/16, 0, 0] = [1, 0, 0].
    let signal = [1.0f64; 8];
    let p = power_spectrum_periodogram(&signal, 4, 0, 8.0);
    assert_eq!(p.len(), 3);
    let bins = bins_of(&p);
    assert!((bins[0] - 1.0).abs() < 1e-12, "zero-frequency bin: {}", bins[0]);
    assert!(bins[1].abs() < 1e-12, "interior bin: {}", bins[1]);
    assert!(bins[2].abs() < 1e-12, "Nyquist bin: {}", bins[2]);
    assert_eq!(frequency_axis(&p), vec![0.0, 2.0, 4.0]);
}

#[test]
fn rectangular_scale_divisor_is_segment_length_squared() {
    let signal = vec![0.5f64; 64];
    for l in [1usize, 2, 4, 7, 8] {
        let ps = PowerSpectrum::builder(to_bits(&signal))
            .segment_length(l)
            .overlap(0)
            .build_power_spectrum()
            .unwrap();
        assert_eq!(ps.scale_divisor(), (l * l) as u128);
    }
}

#[test]
fn every_bin_is_non_negative() {
    let signal: Vec<f64> = (0..256)
        .map(|i| (i as f64 * 0.37).sin() + 0.25 * (i as f64 * 2.11).cos())
        .collect();
    let p = power_spectrum_periodogram(&signal, 16, 8, 1.0);
    for (i, v) in bins_of(&p).iter().enumerate() {
        assert!(*v >= 0.0, "bin {i} is negative: {v}");
    }
}

#[test]
fn repeated_estimates_are_bit_identical() {
    let signal: Vec<f64> = (0..128).map(|i| (i as f64 * 0.61).sin()).collect();
    let a = power_spectrum_periodogram(&signal, 32, 16, 2.0);
    let b = power_spectrum_periodogram(&signal, 32, 16, 2.0);
    assert_eq!(a.values(), b.values());
}

#[test]
fn single_segment_estimate_is_the_plain_periodogram() {
    // With one segment the average over segments changes nothing: the
    // Welch estimate equals the directly computed scaled periodogram.
    let signal: Vec<f64> = (0..8).map(|i| (i as f64 * 0.9).cos()).collect();
    let welch_bins = bins_of(&power_spectrum_periodogram(&signal, 8, 0, 1.0));

    let mut planner = FftPlanner::<f64>::new();
    let fft = planner.plan_fft_forward(8);
    let mut buf: Vec<Complex<f64>> =
        signal.iter().map(|&s| Complex::new(s, 0.0)).collect();
    fft.process(&mut buf);
    let mut direct: Vec<f64> = (0..5).map(|i| buf[i].norm_sqr() / 64.0).collect();
    for bin in direct.iter_mut().take(4).skip(1) {
        *bin *= 2.0;
    }
    assert_eq!(welch_bins, direct);
}

#[test]
fn periodogram_accessors_expose_the_configuration() {
    let signal = [1.0f64; 8];
    let p = power_spectrum_periodogram(&signal, 4, 0, 8.0);
    assert_eq!(p.segment_length(), 4);
    assert_eq!(p.sampling_frequency_bits(), 8.0f64.to_bits());
    assert_eq!(p.len(), p.frequency_bin_count());
    assert_eq!(p.get(0), p.values()[0]);
}
