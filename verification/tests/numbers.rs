use gainsnap::detector::{correction, louder_power};
use gainsnap::double;
use gainsnap::dsp::{
    allowed_gain, protect, publishable_gain_db, supported_sample_rate, GAIN_INCREASE_SECONDS,
    GAIN_SMOOTHING_SECONDS, MATCH_ADAPTATION_SETTLE_SECONDS, MATCH_ADAPTATION_STABILITY_RATIO,
    MATCH_FADE_OUT_SECONDS, MATCH_FADE_SECONDS, MATCH_HISTORY_BUCKET_SECONDS,
    MAX_SUPPORTED_SAMPLE_RATE, PEAK_GUARD_RELEASE_SECONDS, RMS_AVERAGING_SECONDS,
    RMS_SILENCE_SECONDS,
};
use gainsnap::history::RollingMaximum;
use gainsnap::matcher::{
    CORRECTION_MAX_DB, GAIN_MAX_LINEAR, GAIN_MIN_LINEAR, GAIN_STEP_DB, SILENCE_PEAK_LINEAR,
};
use gainsnap::single;
use gainsnap::status::{LOUDEST_DB, SILENT_DB};
use gainsnap::text::{equal, is_white_space, is_word, strip_unit, trim};

fn f(bits: u32) -> f32 {
    f32::from_bits(bits)
}

const SAMPLES: [f32; 14] = [
    0.0,
    -0.0,
    1.0,
    -1.0,
    1.0e-6,
    -1.0e-6,
    f32::MAX,
    f32::MIN,
    f32::MIN_POSITIVE,
    1.0e-45,
    f32::INFINITY,
    f32::NEG_INFINITY,
    24.0,
    f32::NAN,
];

#[test]
fn single_patterns_compare_as_their_numbers_do() {
    for a in SAMPLES {
        assert_eq!(single::is_finite(a.to_bits()), a.is_finite());
        assert_eq!(single::is_nan(a.to_bits()), a.is_nan());
        assert_eq!(single::abs(a.to_bits()), a.abs().to_bits());
        for b in SAMPLES {
            assert_eq!(single::less(a.to_bits(), b.to_bits()), a < b, "{a} {b}");
            assert_eq!(single::less_or_equal(a.to_bits(), b.to_bits()), a <= b);
            let larger = f(single::max(a.to_bits(), b.to_bits()));
            let smaller = f(single::min(a.to_bits(), b.to_bits()));
            assert!(larger == a.max(b) || (larger.is_nan() && a.max(b).is_nan()));
            assert!(smaller == a.min(b) || (smaller.is_nan() && a.min(b).is_nan()));
        }
        let bounded = f(single::clamp(
            a.to_bits(),
            (-2.0_f32).to_bits(),
            3.0_f32.to_bits(),
        ));
        assert!(bounded == a.clamp(-2.0, 3.0) || a.is_nan());
        assert_eq!(
            f(single::finite_or_zero(a.to_bits())),
            if a.is_finite() { a } else { 0.0 }
        );
        assert_eq!(
            single::to_bool(a.to_bits()),
            a.is_finite() && a >= 0.5
        );
    }
    assert_eq!(f(single::from_bool(true)), 1.0);
    assert_eq!(f(single::from_bool(false)), 0.0);
    assert_eq!(f(single::EPSILON), f32::EPSILON);
    assert_eq!(f(single::LARGEST), f32::MAX);
    assert_eq!(f(single::HALF), 0.5);
}

#[test]
fn double_patterns_compare_as_their_numbers_do() {
    let samples: Vec<f64> = SAMPLES.iter().map(|value| *value as f64).collect();
    for a in samples.clone() {
        assert_eq!(double::is_finite(a.to_bits()), a.is_finite());
        assert_eq!(double::is_nan(a.to_bits()), a.is_nan());
        assert_eq!(double::abs(a.to_bits()), a.abs().to_bits());
        for b in samples.clone() {
            assert_eq!(double::less(a.to_bits(), b.to_bits()), a < b);
            assert_eq!(double::less_or_equal(a.to_bits(), b.to_bits()), a <= b);
            let smaller = f64::from_bits(double::min(a.to_bits(), b.to_bits()));
            let larger = f64::from_bits(double::max(a.to_bits(), b.to_bits()));
            assert!(smaller == a.min(b) || smaller.is_nan() && a.min(b).is_nan());
            assert!(larger == a.max(b) || larger.is_nan() && a.max(b).is_nan());
        }
        let bounded = f64::from_bits(double::clamp(a.to_bits(), double::ZERO, double::ONE));
        assert!(bounded == a.clamp(0.0, 1.0) || a.is_nan());
    }
    assert_eq!(f64::from_bits(double::HALF), 0.5);
}

#[test]
fn named_constants_hold_their_numbers() {
    assert_eq!(f(GAIN_SMOOTHING_SECONDS), 0.01);
    assert_eq!(f(GAIN_INCREASE_SECONDS), 0.1);
    assert_eq!(f(MATCH_FADE_SECONDS), 0.3);
    assert_eq!(f(MATCH_FADE_OUT_SECONDS), 0.01);
    assert_eq!(f(PEAK_GUARD_RELEASE_SECONDS), 0.1);
    assert_eq!(f(RMS_AVERAGING_SECONDS), 0.3);
    assert_eq!(f(RMS_SILENCE_SECONDS), 2.0);
    assert_eq!(f(MATCH_HISTORY_BUCKET_SECONDS), 0.1);
    assert_eq!(f(MATCH_ADAPTATION_SETTLE_SECONDS), 0.3);
    assert_eq!(f(MATCH_ADAPTATION_STABILITY_RATIO), 1.059_253_7);
    assert_eq!(f(MAX_SUPPORTED_SAMPLE_RATE), 384_000.0);
    assert_eq!(f(SILENCE_PEAK_LINEAR), 1.0e-6);
    assert_eq!(f(GAIN_MIN_LINEAR), 0.063_095_73);
    assert_eq!(f(GAIN_MAX_LINEAR), 15.848_932);
    assert_eq!(f(CORRECTION_MAX_DB), 24.0);
    assert_eq!(f(GAIN_STEP_DB), 0.0001);
    assert_eq!(f(SILENT_DB), -120.0);
    assert_eq!(f(LOUDEST_DB), 24.0);
}

#[test]
fn sample_rates_are_brought_into_the_supported_range() {
    for (rate, supported) in [
        (48_000.0_f32, 48_000.0_f32),
        (0.0, 1.0),
        (-5.0, 1.0),
        (1.0e9, 384_000.0),
        (f32::NAN, 48_000.0),
        (f32::INFINITY, 48_000.0),
    ] {
        assert_eq!(f(supported_sample_rate(rate.to_bits())), supported);
    }
}

#[test]
fn samples_are_bounded_to_their_ceiling() {
    let bound = |sample: f32, ceiling: f32| f(protect(sample.to_bits(), ceiling.to_bits()));
    assert_eq!(bound(2.0, 0.25), 0.25);
    assert_eq!(bound(-2.0, 0.25), -0.25);
    assert_eq!(bound(0.1, 0.25), 0.1);
    assert_eq!(bound(f32::INFINITY, 1.0), 1.0);
    assert_eq!(bound(f32::NEG_INFINITY, 1.0), -1.0);
    assert_eq!(f(allowed_gain(0, 5.0_f32.to_bits())), f32::MAX);
    assert_eq!(f(allowed_gain(0.5_f32.to_bits(), 5.0_f32.to_bits())), 5.0);
    assert_eq!(f(publishable_gain_db(88.0_f32.to_bits())), 24.0);
    assert_eq!(f(publishable_gain_db((-88.0_f32).to_bits())), -24.0);
    assert_eq!(f(publishable_gain_db(f32::NAN.to_bits())), 0.0);
}

#[test]
fn compensation_is_measured_from_the_larger_operand() {
    let pick = |sum: f64, value: f64| correction(sum.to_bits(), value.to_bits(), 1, 2);
    assert_eq!(pick(2.0, 1.0), 1);
    assert_eq!(pick(-2.0, 1.0), 1);
    assert_eq!(pick(1.0, 1.0), 1);
    assert_eq!(pick(1.0, -2.0), 2);
    assert_eq!(pick(f64::NAN, 1.0), 2);
    assert_eq!(louder_power(1.0_f64.to_bits(), 2.0_f64.to_bits()), 2.0_f64.to_bits());
    assert_eq!(louder_power((-1.0_f64).to_bits(), (-2.0_f64).to_bits()), 0);
}

#[test]
fn rolling_maxima_age_out_bucket_by_bucket() {
    let mut history = RollingMaximum::new();
    assert!(history.observe(0.5_f32.to_bits()));
    assert!(!history.observe(0.25_f32.to_bits()));
    for _ in 0..30 {
        history.rotate();
        history.observe(0.125_f32.to_bits());
        assert_eq!(f(history.maximum()), 0.5);
    }
    history.rotate();
    assert_eq!(f(history.maximum()), 0.125);
    history.reset();
    assert_eq!(f(history.maximum()), 0.0);
}

#[test]
fn texts_are_trimmed_and_matched() {
    for c in (0..0x3100).filter_map(char::from_u32) {
        assert_eq!(is_white_space(c), c.is_whitespace(), "{c:?}");
    }
    for text in ["", " ", " a ", "a b", "\t\u{3000}x\n", "äö "] {
        assert_eq!(trim(text), text.trim());
        assert_eq!(strip_unit(text, "b"), text.trim_end_matches("b"));
    }
    assert_eq!(strip_unit("1dBdB", "dB"), "1");
    assert_eq!(strip_unit("1", ""), "1");
    assert!(equal("ab", "ab") && !equal("ab", "aB") && !equal("ab", "abc"));
    assert!(is_word("ReaDy", "ready") && !is_word("ready ", "ready"));
    assert!(!is_word("Ä", "ä"));
}
