//! Power conservation: for zero-mean white noise the one-sided power
//! spectrum sums to the signal variance, since the fold already adds
//! the discarded negative-frequency energy back in.

use rustfft::num_complex::Complex;
use rustfft::FftPlanner;
use welch_sde::PowerSpectrum;

/// A small deterministic generator of standard-normal samples: a
/// linear-congruential generator feeding the Box-Muller transform.
struct Normals {
    state: u64,
}

impl Normals {
    fn uniform(&mut self) -> f64 {
        self.state = self
            .state
            .wrapping_mul(6364136223846793005)
            .wrapping_add(1442695040888963407);
        ((self.state >> 11) as f64 + 1.0) / (9007199254740992.0 + 2.0)
    }

    fn standard_normal(&mut self) -> f64 {
        let u = self.uniform();
        let v = self.uniform();
        (-2.0 * u.ln()).sqrt() * (2.0 * std::f64::consts::PI * v).cos()
    }
}

#[test]
fn white_noise_power_spectrum_sums_to_the_variance() {
    let sigma2 = 1.234f64;
    let n = 16384usize;
    let mut gen = Normals { state: 0x9E3779B97F4A7C15 };
    let signal: Vec<f64> = (0..n).map(|_| sigma2.sqrt() * gen.standard_normal()).collect();
    let variance = signal.iter().map(|s| s * s).sum::<f64>() / n as f64;

    let segment_length = 128usize;
    let ps = PowerSpectrum::builder(signal.iter().map(|s| s.to_bits()).collect())
        .segment_length(segment_length)
        .overlap(0)
        .build_power_spectrum()
        .expect("configuration is valid");
    let segments = ps.segments();
    let k = ps.k();
    let bins = ps.bin_count();
    let mask = ps.fold_mask();
    let divisor = ps.scale_divisor() as f64;
    let mut planner = FftPlanner::<f64>::new();
    let fft = planner.plan_fft_forward(segment_length);
    let mut acc = vec![0.0f64; bins];
    for seg in &segments {
        let mut buf: Vec<Complex<f64>> =
            seg.iter().map(|&b| Complex::new(f64::from_bits(b), 0.0)).collect();
        fft.process(&mut buf);
        for i in 0..bins {
            acc[i] += buf[i].norm_sqr();
        }
    }
    let mut total = 0.0f64;
    for i in 0..bins {
        let mut v = acc[i] / k as f64 / divisor;
        if mask[i] {
            v *= 2.0;
        }
        total += v;
    }

    // The spectrum's total power matches the sample variance exactly up
    // to rounding (Parseval), and the sample variance itself sits near
    // the generator's variance within Monte Carlo tolerance.
    assert!(
        (total - variance).abs() < 1e-6 * variance,
        "spectrum total {total} vs sample variance {variance}"
    );
    assert!(
        (variance - sigma2).abs() < 0.05 * sigma2,
        "sample variance {variance} vs nominal {sigma2}"
    );
}
