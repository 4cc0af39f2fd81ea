use audio_sampling::layout::{create_layout_guides, slot_domain, SlotDomain};
use audio_sampling::params::{ParamError, SignalParams};
use audio_sampling::quantize::{amplitude_levels, dequantize, quantize, FIXED_ONE};
use audio_sampling::series::TimePoint;
use audio_sampling::title::generate_title;

fn params(name: &str, freq_mhz: u64, rate: i64, bits: u32) -> SignalParams {
    SignalParams::new(name, freq_mhz, rate, bits).unwrap()
}

fn seconds(t: &TimePoint) -> f64 {
    t.ticks as f64 / t.ticks_per_second as f64
}

#[test]
fn severe_aliasing_example() {
    let p = params("Severe Aliasing", 10_000, 8, 16);
    assert_eq!(p.nyquist_ratio.num, 20_000);
    assert_eq!(p.nyquist_ratio.den, 8_000);
    assert_eq!(p.nyquist_ratio.num * 2, p.nyquist_ratio.den * 5);
    assert!(p.nyquist_ratio.is_aliasing());
    assert_eq!(p.sample_count(), 16);
    let xs: Vec<f64> = p.sample_times().iter().map(seconds).collect();
    let expected: Vec<f64> = (0..16).map(|i| i as f64 * 0.125).collect();
    assert_eq!(xs, expected);
    assert_eq!(xs[15], 1.875);
}

#[test]
fn high_resolution_example() {
    let p = params("Hi Resolution", 10_000, 240, 16);
    let ratio = p.nyquist_ratio.num as f64 / p.nyquist_ratio.den as f64;
    assert!((ratio - 0.0833).abs() < 1e-3);
    assert!(!p.nyquist_ratio.is_aliasing());
    assert_eq!(p.sample_count(), 480);
    assert_eq!(p.sample_times().len(), 480);
}

#[test]
fn nyquist_ratio_is_twice_frequency_over_rate() {
    for (f, r) in [(10_000u64, 8i64), (10_000, 12), (10_000, 24), (10_500, 7), (1, 1)] {
        let p = params("n", f, r, 8);
        let exact = 2.0 * (f as f64 / 1000.0) / r as f64;
        let got = p.nyquist_ratio.num as f64 / p.nyquist_ratio.den as f64;
        assert!((exact - got).abs() < 1e-12);
    }
}

#[test]
fn nyquist_limit_is_not_aliasing_below_one() {
    assert!(params("a", 10_000, 20, 8).nyquist_ratio.is_aliasing());
    assert!(!params("b", 10_000, 21, 8).nyquist_ratio.is_aliasing());
}

#[test]
fn series_lengths() {
    for r in [1i64, 8, 12, 24, 240] {
        let p = params("len", 10_000, r, 16);
        assert_eq!(p.sample_count(), 2 * r as usize);
        assert_eq!(p.sample_times().len(), 2 * r as usize);
        assert_eq!(p.continuous_count(), 40 * r as usize + 1);
        assert_eq!(p.continuous_times().len(), 40 * r as usize + 1);
    }
}

#[test]
fn continuous_grid_ends_at_window() {
    let p = params("grid", 10_000, 8, 16);
    let ts = p.continuous_times();
    assert_eq!(ts.len(), 321);
    assert_eq!(seconds(&ts[0]), 0.0);
    assert_eq!(seconds(&ts[1]), 1.0 / 160.0);
    assert_eq!(seconds(&ts[320]), 2.0);
    assert!(ts.iter().all(|t| seconds(t) <= 2.0));
}

#[test]
fn synthesis_is_deterministic() {
    let p = params("det", 10_000, 12, 4);
    let raw: Vec<i64> = vec![0, FIXED_ONE / 3, -FIXED_ONE / 7, FIXED_ONE, -FIXED_ONE];
    assert_eq!(p.sample_times(), p.sample_times());
    assert_eq!(p.continuous_times(), p.continuous_times());
    assert_eq!(p.quantize_samples(&raw), p.quantize_samples(&raw));
    assert_eq!(generate_title(&p), generate_title(&p));
}

#[test]
fn quantize_exact_values() {
    let step: i64 = 1 << 33;
    assert_eq!(quantize(16, FIXED_ONE / 2), 16_384);
    assert_eq!(quantize(16, FIXED_ONE), 32_768);
    assert_eq!(quantize(16, -FIXED_ONE), -32_768);
    assert_eq!(quantize(16, step / 2), 1);
    assert_eq!(quantize(16, step / 2 - 1), 0);
    assert_eq!(quantize(16, -step / 2), -1);
    assert_eq!(quantize(16, -step / 2 + 1), 0);
    assert_eq!(dequantize(16, 1), step);
    assert_eq!(dequantize(16, -32_768), -FIXED_ONE);
    assert_eq!(quantize(2, FIXED_ONE / 3), 1);
    assert_eq!(dequantize(2, 1), FIXED_ONE / 2);
}

#[test]
fn quantized_samples_follow_formula() {
    let p = params("q", 10_000, 8, 3);
    let raw: Vec<i64> = vec![0, FIXED_ONE / 3, -FIXED_ONE / 3, FIXED_ONE, 3 * FIXED_ONE / 8];
    let q = p.quantize_samples(&raw);
    let as_f64: Vec<f64> = q.iter().map(|v| *v as f64 / FIXED_ONE as f64).collect();
    assert_eq!(as_f64, vec![0.0, 0.25, -0.25, 1.0, 0.5]);
}

#[test]
fn requantizing_is_a_no_op() {
    for bits in [1u32, 2, 8, 16, 32] {
        let p = params("idem", 10_000, 8, bits);
        let raw: Vec<i64> =
            vec![0, FIXED_ONE / 3, -FIXED_ONE / 5, FIXED_ONE, -FIXED_ONE, 12_345_678_901];
        let once = p.quantize_samples(&raw);
        let twice = p.quantize_samples(&once);
        assert_eq!(once, twice);
    }
}

#[test]
fn one_bit_has_two_levels_and_three_values() {
    assert_eq!(amplitude_levels(1), 2);
    let p = params("one", 10_000, 8, 1);
    let raw: Vec<i64> = (-20..=20).map(|k| k * (FIXED_ONE / 20)).collect();
    for v in p.quantize_samples(&raw) {
        assert!(v == -FIXED_ONE || v == 0 || v == FIXED_ONE);
    }
    assert_eq!(quantize(1, FIXED_ONE / 2), 1);
    assert_eq!(quantize(1, FIXED_ONE / 2 - 1), 0);
    assert_eq!(quantize(1, -FIXED_ONE / 2), -1);
}

#[test]
fn amplitude_levels_powers_of_two() {
    assert_eq!(amplitude_levels(8), 256);
    assert_eq!(amplitude_levels(16), 65_536);
    assert_eq!(amplitude_levels(32), 4_294_967_296);
}

#[test]
fn invalid_parameters_are_refused() {
    assert_eq!(SignalParams::new("f", 0, 8, 16).unwrap_err(), ParamError::NonPositiveFrequency);
    assert_eq!(SignalParams::new("r", 10_000, 0, 16).unwrap_err(), ParamError::NonPositiveSamplingRate);
    assert_eq!(SignalParams::new("r", 10_000, -8, 16).unwrap_err(), ParamError::NonPositiveSamplingRate);
    assert_eq!(SignalParams::new("big", 10_000, i64::MAX, 16).unwrap_err(), ParamError::SamplingRateTooLarge);
    assert_eq!(SignalParams::new("b", 10_000, 8, 0).unwrap_err(), ParamError::BitDepthOutOfRange);
    assert_eq!(SignalParams::new("b", 10_000, 8, 33).unwrap_err(), ParamError::BitDepthOutOfRange);
    assert!(SignalParams::new("b", 10_000, 8, 32).is_ok());
    assert_eq!(SignalParams::new("all", 0, 0, 0).unwrap_err(), ParamError::NonPositiveFrequency);
}

#[test]
fn titles_of_the_four_panels() {
    assert_eq!(
        generate_title(&params("Severe Aliasing", 10_000, 8, 16)),
        "Severe Aliasing (Nyquist Ratio: 2.50)<br>Signal: 10.0Hz<br>Sampling: 8Hz<br>Bit Depth: 16-bit"
    );
    assert_eq!(
        generate_title(&params("Aliasing", 10_000, 12, 16)),
        "Aliasing (Nyquist Ratio: 1.67)<br>Signal: 10.0Hz<br>Sampling: 12Hz<br>Bit Depth: 16-bit"
    );
    assert_eq!(
        generate_title(&params("Near Nyquist", 10_000, 24, 16)),
        "Near Nyquist (Nyquist Ratio: 0.83)<br>Signal: 10.0Hz<br>Sampling: 24Hz<br>Bit Depth: 16-bit"
    );
    assert_eq!(
        generate_title(&params("Hi Resolution", 10_000, 240, 16)),
        "Hi Resolution (Nyquist Ratio: 0.08)<br>Signal: 10.0Hz<br>Sampling: 240Hz<br>Bit Depth: 16-bit"
    );
    assert_eq!(
        generate_title(&params("Odd", 1_234_567, 1000, 1)),
        "Odd (Nyquist Ratio: 2.47)<br>Signal: 1234.6Hz<br>Sampling: 1000Hz<br>Bit Depth: 1-bit"
    );
}

#[test]
fn layout_guides_in_order() {
    let g = create_layout_guides();
    assert_eq!(g.len(), 44);
    assert_eq!((g[0].text.as_str(), g[0].x_tenths, g[0].y_tenths), ("x: 0.0", 0, 0));
    assert_eq!((g[1].text.as_str(), g[1].x_tenths, g[1].y_tenths), ("|", 0, 5));
    assert_eq!((g[6].text.as_str(), g[6].x_tenths, g[6].y_tenths), ("x: 0.3", 3, 0));
    assert_eq!((g[20].text.as_str(), g[20].x_tenths, g[20].y_tenths), ("x: 1.0", 10, 0));
    assert_eq!((g[22].text.as_str(), g[22].x_tenths, g[22].y_tenths), ("y: 0.0", 0, 0));
    assert_eq!((g[43].text.as_str(), g[43].x_tenths, g[43].y_tenths), ("\u{2014}", 5, 10));
}

#[test]
fn slot_domains_of_the_grid() {
    let d = |a, b, c, e| SlotDomain { x_from: a, x_to: b, y_from: c, y_to: e };
    assert_eq!(slot_domain(0), d(5, 45, 55, 95));
    assert_eq!(slot_domain(1), d(55, 95, 55, 95));
    assert_eq!(slot_domain(2), d(5, 45, 5, 45));
    assert_eq!(slot_domain(3), d(55, 95, 5, 45));
}
