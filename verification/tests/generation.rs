//! The ensemble generator against the generator it models: the draws must be
//! exactly the fractions that `oorandom::Rand32::rand_float` would return,
//! and the classification must match the quartile comparisons on those fractions.

use spectra::ensemble::{random_peaks, PeakDraw, ShapeKind};

#[test]
fn generation_is_deterministic() {
    let a = random_peaks(20, 987654321);
    let b = random_peaks(20, 987654321);
    assert_eq!(a.len(), 20);
    assert_eq!(a, b);
}

#[test]
fn different_seeds_differ() {
    let a = random_peaks(20, 1);
    let b = random_peaks(20, 2);
    assert_ne!(a, b);
}

#[test]
fn zero_count_yields_empty_ensemble() {
    assert_eq!(random_peaks(0, 42), Vec::<PeakDraw>::new());
    assert_eq!(random_peaks(0, 7777).len(), 0);
}

#[test]
fn draws_match_the_backing_generator() {
    for seed in [0_u64, 1, 12345, u64::MAX] {
        let peaks = random_peaks(50, seed);
        let mut rng = oorandom::Rand32::new(seed);
        for p in &peaks {
            let expect = |r: &mut oorandom::Rand32| r.rand_u32() >> 8;
            assert_eq!(p.center, expect(&mut rng));
            assert_eq!(p.amplitude, expect(&mut rng));
            assert_eq!(p.width, expect(&mut rng));
            assert_eq!(p.steepness, expect(&mut rng));
            let f = expect(&mut rng);
            let ff = f as f32 / 16777216.0;
            let (want_shape, want_left) = if ff < 0.25 {
                (ShapeKind::Gauss, true)
            } else if ff < 0.5 {
                (ShapeKind::Gauss, false)
            } else if ff < 0.75 {
                (ShapeKind::Lorentz, true)
            } else {
                (ShapeKind::Lorentz, false)
            };
            assert_eq!(p.shape, want_shape);
            assert_eq!(p.skew_left, want_left);
        }
    }
}

#[test]
fn scaled_parameters_fall_in_their_ranges() {
    for p in random_peaks(200, 24680) {
        let unit = |m: u32| m as f32 / 16777216.0;
        let center = unit(p.center) * 1340.0;
        let amplitude = 100.0 + unit(p.amplitude) * 1000.0;
        let width = 1.0 + unit(p.width) * 25.0;
        let steepness = unit(p.steepness) / 10.0;
        assert!((0.0..1340.0).contains(&center));
        assert!((100.0..1100.0).contains(&amplitude));
        assert!((1.0..26.0).contains(&width));
        assert!((0.0..0.1).contains(&steepness));
    }
}

#[test]
fn unit_draws_match_rand_float() {
    // The 24-bit draw over 2^24 is exactly what rand_float returns.
    let peaks = random_peaks(100, 31337);
    let mut rng = oorandom::Rand32::new(31337);
    for p in &peaks {
        for m in [p.center, p.amplitude, p.width, p.steepness] {
            assert_eq!(m as f32 / 16777216.0, rng.rand_float());
            assert!(m < 1 << 24);
        }
        let _class = rng.rand_float();
    }
}
