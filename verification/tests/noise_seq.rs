//! The pseudo-normal noise sequence and the synthesizer's outlier decision.

use spectra::noise::{is_outlier_draw, pseudo_normal, time_ns, uniform, OUTLIER_CUT, SIX_UNITS, UNIT_ONE};

/// The noise value a fixed-point entry stands for.
fn as_float(v: i64) -> f32 {
    v as f32 / 16777216.0
}

#[test]
fn length_and_range() {
    for n in [0_usize, 1, 7, 1340] {
        let xs = pseudo_normal(n, Some(5));
        assert_eq!(xs.len(), n);
        for &v in &xs {
            assert!(-SIX_UNITS <= v && v < SIX_UNITS);
            assert!((-6.0..=6.0).contains(&as_float(v)));
        }
    }
}

#[test]
fn mean_is_approximately_zero() {
    let xs = pseudo_normal(100000, Some(99));
    let mean = xs.iter().map(|&v| as_float(v) as f64).sum::<f64>() / xs.len() as f64;
    assert!(mean.abs() < 0.1, "mean {mean}");
}

#[test]
fn seeded_sequences_are_deterministic() {
    assert_eq!(pseudo_normal(1340, Some(77)), pseudo_normal(1340, Some(77)));
    assert_ne!(pseudo_normal(1340, Some(77)), pseudo_normal(1340, Some(78)));
}

#[test]
fn values_sum_the_backing_draws() {
    // Each entry is exactly twelve 24-bit draws summed, less six units.
    let xs = pseudo_normal(100, Some(2024));
    let mut rng = oorandom::Rand32::new(2024);
    for &v in &xs {
        let mut sum: i64 = 0;
        for _ in 0..12 {
            sum += (rng.rand_u32() >> 8) as i64;
        }
        assert_eq!(v, sum - 6 * UNIT_ONE);
    }
}

#[test]
fn values_track_the_float_summation() {
    // Summing the twelve draws exactly stays within float rounding of the
    // running single-precision summation of rand_float.
    let xs = pseudo_normal(1000, Some(4242));
    let mut rng = oorandom::Rand32::new(4242);
    for &v in &xs {
        let mut num = 0.0_f32;
        for _ in 0..12 {
            num += rng.rand_float();
        }
        assert!((as_float(v) - (num - 6.0)).abs() < 1e-4);
    }
}

#[test]
fn outlier_cut_matches_the_float_comparison() {
    // The cut is the greatest 24-bit draw whose fraction does not exceed the
    // single-precision reading of 0.99.
    assert!(!(OUTLIER_CUT as f32 / 16777216.0 > 0.99));
    assert!(OUTLIER_CUT as f32 / 16777216.0 + 1.0 / 16777216.0 > 0.99);
    for m in OUTLIER_CUT - 1000..OUTLIER_CUT + 1000 {
        assert_eq!(is_outlier_draw(m), m as f32 / 16777216.0 > 0.99);
    }
    assert!(!is_outlier_draw(0));
    assert!(is_outlier_draw((1 << 24) - 1));
}

#[test]
fn uniform_draws_are_the_rand_float_fractions() {
    let ms = uniform(200, Some(606));
    assert_eq!(ms.len(), 200);
    let mut rng = oorandom::Rand32::new(606);
    for &m in &ms {
        assert!(m < 1 << 24);
        assert_eq!(m as f32 / 16777216.0, rng.rand_float());
    }
    assert_eq!(uniform(200, Some(606)), ms);
    let unseeded = uniform(17, None);
    assert_eq!(unseeded.len(), 17);
    assert!(unseeded.iter().all(|&m| m < 1 << 24));
}

#[test]
fn clock_reads_after_the_epoch() {
    assert!(time_ns() > 0);
    let draws = spectra::ensemble::random_peaks(1, time_ns());
    assert_eq!(draws.len(), 1);
}
