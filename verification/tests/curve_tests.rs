use snapblaster::curve::{
    apply_curve, effective_tempo, integer_sqrt, interpolate, interpolate_values, morph_total_micros,
    progress_at, value_at,
};
use snapblaster::events::MorphCurve;

const CURVES: [MorphCurve; 4] =
    [MorphCurve::Linear, MorphCurve::Exponential, MorphCurve::Logarithmic, MorphCurve::SCurve];

#[test]
fn every_curve_starts_at_nothing_and_ends_at_the_whole() {
    for curve in CURVES {
        assert_eq!(apply_curve(0, curve), 0);
        assert_eq!(apply_curve(1_000_000, curve), 1_000_000);
    }
}

#[test]
fn progress_beyond_the_whole_counts_as_the_whole() {
    for curve in CURVES {
        assert_eq!(apply_curve(1_000_001, curve), 1_000_000);
        assert_eq!(apply_curve(u32::MAX, curve), 1_000_000);
    }
}

#[test]
fn linear_is_the_identity() {
    for p in [1u32, 333_333, 500_000, 999_999] {
        assert_eq!(apply_curve(p, MorphCurve::Linear), p);
    }
}

#[test]
fn exponential_is_the_square() {
    assert_eq!(apply_curve(500_000, MorphCurve::Exponential), 250_000);
    assert_eq!(apply_curve(300_000, MorphCurve::Exponential), 90_000);
    assert_eq!(apply_curve(999_999, MorphCurve::Exponential), 999_998);
    assert_eq!(apply_curve(999, MorphCurve::Exponential), 0);
}

#[test]
fn logarithmic_is_the_square_root() {
    assert_eq!(apply_curve(250_000, MorphCurve::Logarithmic), 500_000);
    assert_eq!(apply_curve(500_000, MorphCurve::Logarithmic), 707_106);
    assert_eq!(apply_curve(1, MorphCurve::Logarithmic), 1_000);
    assert_eq!(apply_curve(10_000, MorphCurve::Logarithmic), 100_000);
}

#[test]
fn s_curve_is_symmetric_about_the_half() {
    assert_eq!(apply_curve(500_000, MorphCurve::SCurve), 499999);
    assert_eq!(apply_curve(250_000, MorphCurve::SCurve), 146446);
    assert_eq!(apply_curve(750_000, MorphCurve::SCurve), 853554);
    assert_eq!(apply_curve(100_000, MorphCurve::SCurve), 24471);
    for p in [1u32, 100_000, 333_333, 499_999] {
        let low = apply_curve(p, MorphCurve::SCurve);
        let high = apply_curve(1_000_000 - p, MorphCurve::SCurve);
        assert_eq!(low + high, 1_000_000);
    }
}

#[test]
fn s_curve_stays_close_to_the_half_cosine() {
    for p in 0u32..=1_000_000 {
        let exact = 0.5 * (1.0 - (std::f64::consts::PI * p as f64 / 1e6).cos());
        let got = apply_curve(p, MorphCurve::SCurve) as f64 / 1e6;
        assert!((exact - got).abs() < 0.0000011, "p = {p}: {got} against {exact}");
    }
}

#[test]
fn s_curve_values_are_those_of_the_half_cosine_rounded() {
    assert_eq!(interpolate(0, 127, apply_curve(69_000, MorphCurve::SCurve)), 1);
    assert_eq!(interpolate(0, 127, apply_curve(250_000, MorphCurve::SCurve)), 19);
    assert_eq!(interpolate(127, 0, apply_curve(750_000, MorphCurve::SCurve)), 19);
    // Only a value that lies on the border between two numbers may fall to
    // the other side.
    for p in 0u32..=1_000_000 {
        let exact = 127.0 * 0.5 * (1.0 - (std::f64::consts::PI * p as f64 / 1e6).cos());
        let got = interpolate(0, 127, apply_curve(p, MorphCurve::SCurve)) as f64;
        assert!((exact - got).abs() < 0.5002, "p = {p}: {got} against {exact}");
    }
}

#[test]
fn every_curve_rises() {
    for curve in CURVES {
        let mut last = 0u32;
        let mut p = 0u32;
        while p <= 1_000_000 {
            let eased = apply_curve(p, curve);
            assert!(eased >= last);
            assert!(eased <= 1_000_000);
            last = eased;
            p += 997;
        }
    }
}

#[test]
fn integer_square_roots() {
    assert_eq!(integer_sqrt(0), 0);
    assert_eq!(integer_sqrt(1), 1);
    assert_eq!(integer_sqrt(2), 1);
    assert_eq!(integer_sqrt(3), 1);
    assert_eq!(integer_sqrt(4), 2);
    assert_eq!(integer_sqrt(99), 9);
    assert_eq!(integer_sqrt(100), 10);
    assert_eq!(integer_sqrt(999_999_999_999), 999_999);
    assert_eq!(integer_sqrt(1_000_000_000_000), 1_000_000);
    assert_eq!(integer_sqrt(u64::MAX), 4_294_967_295);
    assert_eq!(integer_sqrt(4_294_967_295 * 4_294_967_295 - 1), 4_294_967_294);
}

#[test]
fn interpolation_boundaries() {
    for v in 0..=127u8 {
        for p in [0u32, 1, 499_999, 500_000, 1_000_000] {
            assert_eq!(interpolate(v, v, p), v);
        }
    }
    assert_eq!(interpolate(0, 127, 1_000_000), 127);
    assert_eq!(interpolate(0, 127, 0), 0);
    assert_eq!(interpolate(127, 0, 1_000_000), 0);
    assert_eq!(interpolate(127, 0, 0), 127);
}

#[test]
fn interpolation_rounds_to_the_nearest_value_halves_up() {
    assert_eq!(interpolate(0, 127, 500_000), 64);
    assert_eq!(interpolate(0, 1, 499_999), 0);
    assert_eq!(interpolate(0, 1, 500_000), 1);
    assert_eq!(interpolate(0, 100, 250_000), 25);
    assert_eq!(interpolate(100, 0, 250_000), 75);
    assert_eq!(interpolate(10, 20, 340_000), 13);
    assert_eq!(interpolate(10, 20, 350_000), 14);
    assert_eq!(interpolate(20, 10, 350_000), 17);
    assert_eq!(interpolate(0, 127, 2_000_000), 127);
}

#[test]
fn interpolation_holds_values_within_seven_bits() {
    assert_eq!(interpolate(200, 200, 0), 127);
    assert_eq!(interpolate(0, 255, 1_000_000), 127);
    assert_eq!(interpolate(255, 0, 0), 127);
    assert_eq!(interpolate(0, 255, 250_000), 64);
}

#[test]
fn interpolated_values_cover_every_parameter() {
    let from = vec![0u8, 10, 127];
    let to = vec![127u8, 20, 0];
    assert_eq!(interpolate_values(&from, &to, 0, 3), vec![0, 10, 127]);
    assert_eq!(interpolate_values(&from, &to, 1_000_000, 3), vec![127, 20, 0]);
    assert_eq!(interpolate_values(&from, &to, 500_000, 3), vec![64, 15, 64]);
    assert_eq!(interpolate_values(&from, &to, 500_000, 2), vec![64, 15]);
    assert_eq!(interpolate_values(&from, &to, 500_000, 0), Vec::<u8>::new());
}

#[test]
fn a_missing_value_is_the_mid_point() {
    assert_eq!(value_at(&vec![1, 2], 1), 2);
    assert_eq!(value_at(&vec![1, 2], 2), 64);
    assert_eq!(interpolate_values(&vec![0], &vec![], 1_000_000, 2), vec![64, 64]);
    assert_eq!(interpolate_values(&vec![], &vec![0, 127], 500_000, 2), vec![32, 96]);
}

#[test]
fn progress_is_elapsed_over_total() {
    assert_eq!(progress_at(0, 4_000_000), 0);
    assert_eq!(progress_at(2_000_000, 4_000_000), 500_000);
    assert_eq!(progress_at(1, 3), 333_333);
    assert_eq!(progress_at(3_999_999, 4_000_000), 999_999);
    assert_eq!(progress_at(4_000_000, 4_000_000), 1_000_000);
    assert_eq!(progress_at(5_000_000, 4_000_000), 1_000_000);
    assert_eq!(progress_at(0, 0), 1_000_000);
    assert_eq!(progress_at(u64::MAX - 1, u64::MAX), 999_999);
}

#[test]
fn progress_never_goes_back() {
    let total = 4_000_000u64;
    let mut last = 0u32;
    let mut t = 0u64;
    while t <= total + 100_000 {
        let p = progress_at(t, total);
        assert!(p >= last);
        last = p;
        t += 33_000;
    }
    assert_eq!(last, 1_000_000);
}

#[test]
fn tempo_defaults_to_120() {
    assert_eq!(effective_tempo(None), 120_000);
    assert_eq!(effective_tempo(Some(0)), 120_000);
    assert_eq!(effective_tempo(Some(90_500)), 90_500);
    assert_eq!(effective_tempo(Some(1)), 1);
}

#[test]
fn a_morph_lasts_four_beats_a_bar() {
    assert_eq!(morph_total_micros(2, 120_000), 4_000_000);
    assert_eq!(morph_total_micros(1, 120_000), 2_000_000);
    assert_eq!(morph_total_micros(16, 60_000), 64_000_000);
    assert_eq!(morph_total_micros(4, 128_000), 7_500_000);
    assert_eq!(morph_total_micros(0, 120_000), 0);
    assert_eq!(morph_total_micros(255, 1), 61_200_000_000_000);
    assert_eq!(morph_total_micros(1, 7), 34_285_714_285);
}
