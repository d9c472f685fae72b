use gainsnap::detector::{correction, louder_power, RmsDetector};
use gainsnap::dsp::{
    db_to_linear, linear_to_db, supported_sample_rate, GainSnapEngine, GAIN_INCREASE_SECONDS,
    GAIN_SMOOTHING_SECONDS, MATCH_ADAPTATION_SETTLE_SECONDS, MATCH_ADAPTATION_STABILITY_RATIO,
    MATCH_FADE_OUT_SECONDS, MATCH_FADE_SECONDS, MATCH_HISTORY_BUCKET_SECONDS,
    PEAK_GUARD_RELEASE_SECONDS, RMS_AVERAGING_SECONDS, RMS_SILENCE_SECONDS,
};
use gainsnap::frame::{Ask, FadedNumbers, GuardNumbers, Reply, Sums};
use gainsnap::host::{classify_clap_parameter, BlockRun, BlockStep};
use gainsnap::matcher::{
    CandidateReadings, ControlReadings, Target, Timing, CORRECTION_MAX_DB, CORRECTION_MIN_DB,
    SILENCE_PEAK_LINEAR,
};
use gainsnap::params::{
    GainSnapParams, GAIN_MAX_DB, GAIN_MIN_DB, PARAM_LOCKED_GAIN_DB, PARAM_MATCH, PARAM_RMS_MODE,
    PARAM_TARGET_DB,
};
use gainsnap::status::MatchState;
use gainsnap::timeline::{ParamEvent, ParamTimeline, PARAM_EVENT_CAPACITY};

fn f(bits: u32) -> f32 {
    f32::from_bits(bits)
}

fn d(bits: u64) -> f64 {
    f64::from_bits(bits)
}

/// Exchange one square for another in a compensated running sum.
fn exchange(sum: f64, compensation: f64, outgoing: f64, incoming: f64) -> (f64, f64) {
    let mut sum = sum;
    let mut compensation = compensation;
    for value in [-outgoing, incoming] {
        let next = sum + value;
        compensation += d(correction(
            sum.to_bits(),
            value.to_bits(),
            ((sum - next) + value).to_bits(),
            ((value - next) + sum).to_bits(),
        ));
        sum = next;
    }
    (sum, compensation)
}

fn exchange_squares(
    left: f32,
    right: f32,
    outgoing: (u64, u64),
    sum: (u64, u64),
    compensation: (u64, u64),
) -> Sums {
    let squares = ((left as f64).powi(2), (right as f64).powi(2));
    let (left_sum, left_compensation) =
        exchange(d(sum.0), d(compensation.0), d(outgoing.0), squares.0);
    let (right_sum, right_compensation) =
        exchange(d(sum.1), d(compensation.1), d(outgoing.1), squares.1);
    Sums {
        squares: (squares.0.to_bits(), squares.1.to_bits()),
        sum: (left_sum.to_bits(), right_sum.to_bits()),
        compensation: (left_compensation.to_bits(), right_compensation.to_bits()),
    }
}

fn root(sum: (u64, u64), compensation: (u64, u64), count: usize) -> f32 {
    let power = louder_power(
        (d(sum.0) + d(compensation.0)).to_bits(),
        (d(sum.1) + d(compensation.1)).to_bits(),
    );
    (d(power) / count as f64).sqrt() as f32
}

fn gain_factor(db: f32) -> f32 {
    let bounded = db.clamp(f(GAIN_MIN_DB), f(GAIN_MAX_DB));
    f(db_to_linear(
        db.to_bits(),
        10.0_f32.powf(bounded / 20.0).to_bits(),
    ))
}

fn decibels(linear: f32) -> f32 {
    f(linear_to_db(
        linear.to_bits(),
        (20.0 * linear.log10()).to_bits(),
    ))
}

fn target_peak(target_db: f32) -> f32 {
    10.0_f32.powf(target_db / 20.0)
}

fn answer(ask: Ask) -> Reply {
    match ask {
        Ask::Sums {
            left,
            right,
            outgoing,
            sum,
            compensation,
        } => Reply::Sums(exchange_squares(
            f(left),
            f(right),
            outgoing,
            sum,
            compensation,
        )),
        Ask::Root {
            sum,
            compensation,
            count,
        } => Reply::Number(root(sum, compensation, count).to_bits()),
        Ask::Readings {
            target_peak,
            level,
            peak,
            anchor_gain,
            anchor_level,
        } => {
            let ratio = f(MATCH_ADAPTATION_STABILITY_RATIO);
            Reply::Readings(CandidateReadings {
                requested_gain: (f(target_peak) / f(level)).to_bits(),
                headroom_gain: (1.0 / f(peak)).to_bits(),
                gain_low: (f(anchor_gain) / ratio).to_bits(),
                gain_high: (f(anchor_gain) * ratio).to_bits(),
                level_low: (f(anchor_level) / ratio).to_bits(),
                level_high: (f(anchor_level) * ratio).to_bits(),
            })
        }
        Ask::Decibels { factor } => Reply::Number((20.0 * f(factor).log10()).to_bits()),
        Ask::Factor { decibels } => Reply::Double((gain_factor(f(decibels)) as f64).to_bits()),
        Ask::Approach { from, to, share } => {
            Reply::Double((d(from) + (d(to) - d(from)) * d(share)).to_bits())
        }
        Ask::Step { position, step } => Reply::Number((f(position) + f(step)).to_bits()),
        Ask::Quotient { dividend, divisor } => {
            Reply::Number((f(dividend) / f(divisor)).to_bits())
        }
        Ask::Guard {
            smoothed,
            allowed,
            guard,
            release,
        } => {
            let desired = d(smoothed) as f32;
            Reply::Guard(GuardNumbers {
                desired: desired.to_bits(),
                ratio: ((f(allowed) / desired) as f64).to_bits(),
                recovered: (d(guard) + (1.0 - d(guard)) * d(release)).to_bits(),
            })
        }
        Ask::Attenuated { gain, guard } => {
            Reply::Number((f(gain) * d(guard) as f32).to_bits())
        }
        Ask::Faded {
            falling,
            position,
            step,
            gain,
            ceiling,
            left,
            right,
        } => {
            let p = f(position);
            let rising = p * p * (3.0 - 2.0 * p);
            let factor = if falling { 1.0 - rising } else { rising };
            Reply::Faded(FadedNumbers {
                factor: factor.to_bits(),
                left: (f(left) * f(gain)).to_bits(),
                right: (f(right) * f(gain)).to_bits(),
                gain: (f(gain) * factor).to_bits(),
                ceiling: (f(ceiling) * factor).to_bits(),
                stepped: (p + f(step)).to_bits(),
            })
        }
        Ask::Scaled {
            left,
            right,
            factor,
        } => Reply::Pair(
            (f(left) * f(factor)).to_bits(),
            (f(right) * f(factor)).to_bits(),
        ),
    }
}

/// Share of the remaining way that one frame covers.
fn coefficient(sample_rate: f32, seconds: u32) -> u64 {
    (-(-1.0 / (sample_rate as f64 * f(seconds) as f64)).exp_m1()).to_bits()
}

fn frames(sample_rate: f32, seconds: u32) -> u64 {
    (sample_rate * f(seconds)).ceil().max(1.0) as u64
}

struct Report {
    input_peak_db: f32,
    output_peak_db: f32,
    output_rms_db: f32,
    progress: f32,
    state: MatchState,
    locked_gain_db: f32,
}

/// The engine with its arithmetic.
struct Engine {
    inner: GainSnapEngine,
}

impl Engine {
    fn new(sample_rate: f32, stored_gain_db: f32) -> Self {
        let rate = f(supported_sample_rate(sample_rate.to_bits()));
        let stored = if stored_gain_db.is_finite() {
            stored_gain_db.clamp(f(GAIN_MIN_DB), f(GAIN_MAX_DB))
        } else {
            0.0
        };
        let gain = gain_factor(stored);
        let timing = Timing {
            silence_frames: frames(rate, RMS_SILENCE_SECONDS),
            bucket_frames: frames(rate, MATCH_HISTORY_BUCKET_SECONDS),
            stability_frames: frames(rate, MATCH_ADAPTATION_SETTLE_SECONDS),
            reduction_coefficient: coefficient(rate, GAIN_SMOOTHING_SECONDS),
            increase_coefficient: coefficient(rate, GAIN_INCREASE_SECONDS),
            release_coefficient: coefficient(rate, PEAK_GUARD_RELEASE_SECONDS),
            fade_in_step: (1.0 / (rate * f(MATCH_FADE_SECONDS))).to_bits(),
            fade_out_step: (1.0 / (rate * f(MATCH_FADE_OUT_SECONDS))).to_bits(),
        };
        let target = Target {
            db: (-12.0_f32).to_bits(),
            peak: target_peak(-12.0).to_bits(),
        };
        Self {
            inner: GainSnapEngine::new(
                timing,
                frames(rate, RMS_AVERAGING_SECONDS) as usize,
                stored_gain_db.to_bits(),
                gain.to_bits(),
                (gain as f64).to_bits(),
                target,
            ),
        }
    }

    fn readings(&self, params: &GainSnapParams) -> ControlReadings {
        let target_db = f(params.target_db());
        let gain_db = f(params.locked_gain_db());
        let gain = gain_factor(gain_db);
        ControlReadings {
            target_distance: (target_db - f(self.inner.target().db)).abs().to_bits(),
            target_peak: target_peak(target_db).to_bits(),
            gain_distance: (gain_db - f(self.inner.gain().locked_db)).abs().to_bits(),
            gain_linear: gain.to_bits(),
            gain_double: (gain as f64).to_bits(),
        }
    }

    fn begin_block(&mut self, params: &GainSnapParams) {
        let readings = self.readings(params);
        self.inner.begin_block(params, readings);
    }

    fn reset(&mut self, params: &GainSnapParams) {
        let readings = self.readings(params);
        self.inner.reset(params, readings);
    }

    fn sync_controls(&mut self, params: &GainSnapParams) {
        let readings = self.readings(params);
        self.inner.sync_controls(params, readings);
    }

    fn process_frame(&mut self, params: &mut GainSnapParams, left: f32, right: f32) -> (f32, f32) {
        let mut frame = self.inner.process_frame(left.to_bits(), right.to_bits());
        while let Some(ask) = frame.ask(&self.inner) {
            frame.reply(&mut self.inner, params, answer(ask));
        }
        let (left, right) = frame.output().expect("a frame that asks nothing is done");
        (f(left), f(right))
    }

    fn report(&self) -> Report {
        let peaks = self.inner.block_peaks();
        let output = self.inner.output_rms();
        let level = output.level(root(output.sum(), output.compensation(), output.count()).to_bits());
        let logarithm = |bits: u32| (20.0 * f(bits).log10()).to_bits();
        let report = self.inner.report(
            logarithm(peaks.input),
            logarithm(peaks.output),
            level,
            logarithm(level),
        );
        Report {
            input_peak_db: f(report.input_peak_db),
            output_peak_db: f(report.output_peak_db),
            output_rms_db: f(report.output_rms_db),
            progress: f(report.progress),
            state: report.state,
            locked_gain_db: f(report.locked_gain_db),
        }
    }

    fn current_gain(&self) -> f32 {
        d(self.inner.gain().current) as f32
    }

    fn measurement_level(&self) -> f32 {
        f(self.inner.measurement_level())
    }

    fn rolling_measurement_peak(&self) -> f32 {
        f(self.inner.rolling_measurement_peak())
    }

    fn rolling_measurement_rms(&self) -> f32 {
        f(self.inner.rolling_measurement_rms())
    }
}

/// A detector with its arithmetic.
struct Detector {
    inner: RmsDetector,
}

impl Detector {
    fn new(window_frames: usize) -> Self {
        Self {
            inner: RmsDetector::new(window_frames),
        }
    }

    fn update(&mut self, left: f32, right: f32) {
        let sums = exchange_squares(
            left,
            right,
            self.inner.outgoing(),
            self.inner.sum(),
            self.inner.compensation(),
        );
        self.inner.update(sums.squares, sums.sum, sums.compensation);
    }

    fn complete(&self) -> bool {
        self.inner.complete()
    }

    fn level(&self) -> f32 {
        let count = self.inner.count();
        f(self
            .inner
            .level(root(self.inner.sum(), self.inner.compensation(), count).to_bits()))
    }
}

fn set(params: &mut GainSnapParams, id: u32, value: f32) {
    params.set_param(id, value.to_bits());
}

fn locked(params: &GainSnapParams) -> f32 {
    f(params.locked_gain_db())
}

fn run_frames(engine: &mut Engine, params: &mut GainSnapParams, left: f32, frames: usize) {
    for _ in 0..frames {
        let _ = engine.process_frame(params, left, left);
    }
}

fn rms_params() -> GainSnapParams {
    let mut params = GainSnapParams::new();
    set(&mut params, PARAM_RMS_MODE, 1.0);
    set(&mut params, PARAM_MATCH, 1.0);
    params
}

#[test]
fn rms_gain_updates_for_sparse_impulses_at_any_control_tick_phase() {
    let mut params = rms_params();
    set(&mut params, PARAM_TARGET_DB, -24.0);
    let mut engine = Engine::new(48_000.0, 0.0);
    engine.begin_block(&params);
    let mut energy = 0.0_f64;
    for n in 0..144_000 {
        let input = if n % 64 == 0 { 0.1 } else { 0.0 };
        let out = engine.process_frame(&mut params, input, input).0;
        if n >= 96_000 {
            energy += (out as f64).powi(2);
        }
    }
    let db = 20.0 * (energy / 48_000.0).sqrt().log10();
    assert!((db + 24.0).abs() < 0.03, "{db}");
}

#[test]
fn short_gaps_between_hits_do_not_restart_the_rms_startup_fade() {
    let mut params = rms_params();
    let mut engine = Engine::new(48_000.0, 0.0);
    engine.begin_block(&params);
    run_frames(&mut engine, &mut params, 0.1, 48_000);
    for _ in 0..5 {
        run_frames(&mut engine, &mut params, 0.0, 19_200);
        let first = engine.process_frame(&mut params, 0.1, -0.1);
        assert!(
            first.0 > 0.01,
            "ordinary rhythmic gaps must not mute the next hit"
        );
        run_frames(&mut engine, &mut params, 0.1, 4_800);
    }
}

#[test]
fn rms_matches_sine_average_instead_of_its_peak_at_host_sample_rates() {
    for rate in [44_100, 48_000, 96_000, 192_000] {
        for rms in [false, true] {
            let mut params = rms_params();
            set(&mut params, PARAM_RMS_MODE, f32::from(rms));
            let mut engine = Engine::new(rate as f32, 0.0);
            engine.begin_block(&params);
            let mut energy = 0.0_f64;
            let mut peak = 0.0_f32;
            for n in 0..rate * 3 {
                let input = (std::f64::consts::TAU * 1000.0 * n as f64 / rate as f64).sin()
                    as f32
                    * 0.25;
                let (left, right) = engine.process_frame(&mut params, input, -input * 0.5);
                assert_eq!(right, -left * 0.5);
                if n >= rate * 2 {
                    energy += (left as f64).powi(2);
                    peak = peak.max(left.abs());
                }
            }
            let actual = 20.0 * (energy / rate as f64).sqrt().log10();
            let expected = if rms {
                -12.0
            } else {
                -12.0 - 10.0 * 2.0_f64.log10()
            };
            assert!(
                (actual - expected).abs() < 0.03,
                "rate={rate} rms={rms}: {actual}"
            );
            if rms {
                assert!(
                    peak > 10.0_f32.powf(-12.0 / 20.0) * 1.3,
                    "RMS must permit crest above target"
                );
                assert!(
                    (engine.report().output_rms_db + 12.0).abs() < 0.03,
                    "{} gain {} level {}",
                    engine.report().output_rms_db,
                    locked(&params),
                    engine.measurement_level()
                );
            }
        }
    }
}

#[test]
fn rms_adapts_to_quieter_material_and_holds_gain_when_match_stops() {
    let mut params = rms_params();
    let mut engine = Engine::new(48_000.0, 0.0);
    engine.begin_block(&params);
    run_frames(&mut engine, &mut params, 0.5, 96_000);
    run_frames(&mut engine, &mut params, 0.125, 216_000);
    assert!(
        (engine.report().output_rms_db + 12.0).abs() < 0.03,
        "{} gain {} level {}",
        engine.report().output_rms_db,
        locked(&params),
        engine.measurement_level()
    );
    assert!((locked(&params) - 6.0618).abs() < 0.02);
    let gain = locked(&params);
    set(&mut params, PARAM_MATCH, 0.0);
    engine.sync_controls(&params);
    run_frames(&mut engine, &mut params, 0.0625, 144_000);
    assert!((locked(&params) - gain).abs() < 0.01);
    assert!(
        (engine.report().output_rms_db + 18.0206).abs() < 0.03,
        "{} gain {} current {}",
        engine.report().output_rms_db,
        locked(&params),
        decibels(engine.current_gain())
    );
}

#[test]
fn matching_adapts_loud_quiet_loud_repeatedly_without_toggle() {
    for rms in [false, true] {
        let mut params = GainSnapParams::new();
        set(&mut params, PARAM_TARGET_DB, -12.0);
        set(&mut params, PARAM_RMS_MODE, f32::from(rms));
        set(&mut params, PARAM_MATCH, 1.0);
        let mut engine = Engine::new(1_000.0, 0.0);
        engine.begin_block(&params);

        run_frames(&mut engine, &mut params, 0.5, 3_200);
        let loud_gain = locked(&params);
        assert!((loud_gain + 5.9794).abs() < 0.02, "rms={rms}: {loud_gain}");

        // Recent loud evidence keeps a quiet transition from boosting on
        // its first samples.
        run_frames(&mut engine, &mut params, 0.125, 100);
        assert!((locked(&params) - loud_gain).abs() < 0.02);
        run_frames(&mut engine, &mut params, 0.125, 4_000);
        assert!((locked(&params) - 6.0618).abs() < 0.2);
        assert!(
            (decibels(engine.current_gain()) - 6.0618).abs() < 0.2,
            "rms={rms}: locked {} current {} level {} rolling peak {} rolling rms {}",
            locked(&params),
            decibels(engine.current_gain()),
            engine.measurement_level(),
            engine.rolling_measurement_peak(),
            engine.rolling_measurement_rms(),
        );

        // A louder transition lowers gain as soon as the new peak is
        // usable; RMS mode confirms it after its full window completes.
        run_frames(&mut engine, &mut params, 0.5, 500);
        assert!((locked(&params) + 5.9794).abs() < 0.2);

        run_frames(&mut engine, &mut params, 0.125, 4_000);
        assert!((locked(&params) - 6.0618).abs() < 0.2);
        run_frames(&mut engine, &mut params, 0.5, 500);
        assert!((locked(&params) + 5.9794).abs() < 0.2);
        assert_eq!(engine.report().state, MatchState::Measuring);
        assert!(params.match_requested());
    }
}

#[test]
fn peak_matching_does_not_progressively_boost_a_decaying_tail() {
    let mut params = GainSnapParams::new();
    set(&mut params, PARAM_TARGET_DB, -12.0);
    set(&mut params, PARAM_MATCH, 1.0);
    let mut engine = Engine::new(1_000.0, 0.0);
    engine.begin_block(&params);
    run_frames(&mut engine, &mut params, 0.5, 1_000);
    let loud_gain = locked(&params);

    // The tail falls by 1 dB per 100 ms. Its rolling candidate therefore
    // never stays within the 0.5 dB settling band for the full 300 ms.
    let decay_per_frame = 10.0_f32.powf(-1.0 / (20.0 * 100.0));
    let mut input = 0.5;
    for _ in 0..12_000 {
        engine.process_frame(&mut params, input, input);
        input *= decay_per_frame;
    }

    assert_eq!(engine.report().state, MatchState::Measuring);
    assert!(params.match_requested());
    assert!(
        locked(&params) <= loud_gain + 0.2,
        "decaying tail ratcheted gain from {loud_gain} to {}",
        locked(&params)
    );
}

#[test]
fn rms_headroom_recovers_after_a_recent_crest_expires() {
    let mut params = rms_params();
    set(&mut params, PARAM_TARGET_DB, 0.0);
    let mut engine = Engine::new(1_000.0, 0.0);
    engine.begin_block(&params);

    let sine_amplitude = 0.25 * 2.0_f32.sqrt();
    for frame in 0..3_500 {
        let phase = std::f32::consts::TAU * frame as f32 / 20.0;
        engine.process_frame(&mut params, phase.sin() * sine_amplitude, 0.0);
    }
    let sine_gain = locked(&params);
    assert!((sine_gain - 9.0309).abs() < 0.2, "{sine_gain}");

    // The square wave has the same 0.25 RMS but a lower 0.25 peak. Once
    // the sine crest leaves the recent history, its available headroom
    // grows to the full +12.04 dB requested correction.
    for frame in 0..3_800 {
        let input = if frame % 2 == 0 { 0.25 } else { -0.25 };
        engine.process_frame(&mut params, input, input);
    }
    assert!((locked(&params) - 12.0412).abs() < 0.2);
    assert!((decibels(engine.current_gain()) - 12.0412).abs() < 0.2);
}

fn damped_kick(frame: usize, sample_rate: usize, bpm: usize) -> f32 {
    let beat_frames = sample_rate * 60 / bpm;
    let within_beat = frame % beat_frames;
    let burst_frames = sample_rate * 3 / 20;
    if within_beat >= burst_frames {
        return 0.001;
    }
    let time = within_beat as f32 / sample_rate as f32;
    0.8 * (-time * 24.0).exp() * (std::f32::consts::TAU * 58.0 * time).sin() + 0.001
}

fn measure_kicks(
    sample_rate: usize,
    bpm: usize,
    target_db: f32,
    release_phase: f32,
) -> (f32, f32) {
    let mut params = rms_params();
    set(&mut params, PARAM_TARGET_DB, target_db);
    let mut engine = Engine::new(sample_rate as f32, 0.0);
    engine.begin_block(&params);
    let beat_frames = sample_rate * 60 / bpm;
    let release_at = beat_frames * 4 + (beat_frames as f32 * release_phase) as usize;
    let mut output_peak = 0.0_f32;
    for frame in 0..=release_at {
        let input = damped_kick(frame, sample_rate, bpm);
        let output = engine.process_frame(&mut params, input, -input * 0.7);
        assert!(output.0.is_finite() && output.1.is_finite());
        if frame >= beat_frames * 2 {
            output_peak = output_peak.max(output.0.abs()).max(output.1.abs());
        }
    }
    let gain = locked(&params);
    set(&mut params, PARAM_MATCH, 0.0);
    engine.sync_controls(&params);
    (gain, output_peak)
}

#[test]
fn rms_kick_windows_hold_one_gain_across_tempo_rate_and_release_phase() {
    for sample_rate in [44_100, 48_000, 96_000, 192_000] {
        for bpm in [60, 120, 180] {
            let early = measure_kicks(sample_rate, bpm, -18.0, 0.35);
            let late = measure_kicks(sample_rate, bpm, -18.0, 0.85);
            assert!(
                (early.0 - late.0).abs() < 0.001,
                "rate={sample_rate} bpm={bpm}: {early:?} vs {late:?}"
            );
            // -18 dBFS has crest headroom for this fixture, so the
            // repeated hits retain their envelope without guard limiting.
            assert!(early.1 < 1.0 && late.1 < 1.0);
        }
    }
}

#[test]
fn rms_kick_headroom_bounds_unreachable_targets_before_the_guard() {
    for target in [-12.0, 0.0] {
        let (gain, output_peak) = measure_kicks(48_000, 120, target, 0.8);
        assert!(output_peak <= 1.0);
        assert!(gain < 3.0, "target={target} gain={gain}");
    }
}

#[test]
fn rms_kick_fixture_metrics() {
    for target in [-18.0, -12.0, 0.0] {
        let (gain, output_peak) = measure_kicks(48_000, 120, target, 0.8);
        println!(
            "target={target:.0} dBFS, held gain={gain:.3} dB, output peak={output_peak:.6}"
        );
    }
}

#[test]
fn rms_short_one_shot_completes_through_zeroes_and_off_keeps_peak_startup() {
    let mut params = rms_params();
    let mut engine = Engine::new(48_000.0, 0.0);
    engine.begin_block(&params);
    for frame in 0..14_401 {
        let input = if frame < 960 { 0.5 } else { 0.0 };
        engine.process_frame(&mut params, input, input);
    }
    assert!(engine.inner.input_rms().complete());
    assert!(engine.rolling_measurement_rms() > f(SILENCE_PEAK_LINEAR));
    assert!(
        engine.report().locked_gain_db > -5.0,
        "the first complete RMS window should publish after the impulse"
    );

    let mut early_params = rms_params();
    let mut early = Engine::new(48_000.0, 0.0);
    early.begin_block(&early_params);
    run_frames(&mut early, &mut early_params, 0.5, 960);
    set(&mut early_params, PARAM_MATCH, 0.0);
    early.sync_controls(&early_params);
    assert!((locked(&early_params) + 5.9794).abs() < 0.02);
}

#[test]
fn rms_square_and_sine_keep_full_scale_square_calibration() {
    for square in [false, true] {
        let mut params = rms_params();
        let mut engine = Engine::new(48_000.0, 0.0);
        engine.begin_block(&params);
        for frame in 0..144_000 {
            let input = if square {
                if frame % 48 < 24 {
                    0.25
                } else {
                    -0.25
                }
            } else {
                (std::f32::consts::TAU * frame as f32 / 48.0).sin() * 0.25
            };
            engine.process_frame(&mut params, input, input);
        }
        assert!((engine.report().output_rms_db + 12.0).abs() < 0.04);
    }
}

#[test]
fn hostile_sample_rate_is_bounded_at_construction() {
    let mut engine = Engine::new(f32::MAX, 0.0);
    assert_eq!(engine.inner.input_rms().capacity(), 115_201);
    let mut params = rms_params();
    engine.begin_block(&params);
    for input in [f32::MAX, -f32::MAX, 0.1, 0.0] {
        let output = engine.process_frame(&mut params, input, -input);
        assert!(output.0.is_finite() && output.1.is_finite());
    }
}

#[test]
fn rms_recovers_ordinary_power_after_an_extreme_finite_sample_leaves_window() {
    let mut detector = Detector::new(16);
    detector.update(f32::MAX, -f32::MAX);
    for _ in 0..32 {
        detector.update(0.25, -0.25);
    }
    assert!(detector.complete());
    assert!(
        (detector.level() - 0.25).abs() < 1.0e-6,
        "{}",
        detector.level()
    );
}

#[test]
fn rms_silence_does_not_raise_gain_and_returning_signal_fades_safely() {
    let mut params = rms_params();
    let mut engine = Engine::new(48_000.0, 24.0);
    engine.begin_block(&params);
    run_frames(&mut engine, &mut params, 0.0, 96_000);
    assert_eq!(engine.process_frame(&mut params, 0.1, -0.1).0, 0.0);
    run_frames(&mut engine, &mut params, 0.1, 96_000);
    let gain = locked(&params);
    run_frames(&mut engine, &mut params, 0.0, 144_000);
    assert_eq!(locked(&params), gain);
    assert_eq!(engine.process_frame(&mut params, 1.0, -1.0).0, 0.0);
    for n in 0..48_000 {
        let x = if n % 2 == 0 { f32::MAX } else { f32::NAN };
        let (left, right) = engine.process_frame(&mut params, x, -x);
        assert!(left.is_finite() && right.is_finite());
        assert!(left.abs() <= 1.0 && right.abs() <= 1.0);
    }
}

#[test]
fn mode_changes_during_matching_preserve_the_first_output_sample() {
    let mut params = GainSnapParams::new();
    set(&mut params, PARAM_MATCH, 1.0);
    let mut engine = Engine::new(48_000.0, 0.0);
    engine.begin_block(&params);
    for mode in [true, false, true] {
        run_frames(&mut engine, &mut params, 0.5, 96_000);
        let before = engine.process_frame(&mut params, 0.5, -0.25);
        set(&mut params, PARAM_RMS_MODE, f32::from(mode));
        engine.sync_controls(&params);
        let after = engine.process_frame(&mut params, 0.5, -0.25);
        assert!((before.0 - after.0).abs() < 1.0e-6);
        run_frames(&mut engine, &mut params, 0.5, 96_000);
        assert!(
            (engine.report().output_rms_db + 12.0).abs() < 0.03,
            "{} gain {} level {}",
            engine.report().output_rms_db,
            locked(&params),
            engine.measurement_level()
        );
    }
}

#[test]
fn rms_zero_target_keeps_the_peak_guard_even_when_average_cannot_reach_target() {
    let mut params = rms_params();
    set(&mut params, PARAM_TARGET_DB, 0.0);
    let mut engine = Engine::new(48_000.0, 0.0);
    engine.begin_block(&params);
    for n in 0..144_000 {
        let input = (std::f32::consts::TAU * n as f32 / 48.0).sin() * 0.5;
        let (left, right) = engine.process_frame(&mut params, input, -input);
        assert!(left.abs() <= 1.0 && right.abs() <= 1.0);
    }
    assert!(engine.report().output_rms_db < -2.0);
}

#[test]
fn matching_applies_gain_live_and_turning_it_off_holds_it() {
    let mut params = GainSnapParams::new();
    set(&mut params, PARAM_TARGET_DB, -12.0);
    set(&mut params, PARAM_MATCH, 1.0);
    let mut engine = Engine::new(1_000.0, 0.0);
    engine.begin_block(&params);
    run_frames(&mut engine, &mut params, 0.5, 1_200);

    assert_eq!(engine.report().state, MatchState::Measuring);
    assert_eq!(engine.report().progress, 0.0);
    assert!((engine.report().locked_gain_db - (-5.9794)).abs() < 0.02);
    assert!((locked(&params) - engine.report().locked_gain_db).abs() < 0.001);
    // Read a fresh block after the slew settles: telemetry must measure
    // the samples we actually output while Match is still enabled.
    engine.begin_block(&params);
    let (left, right) = engine.process_frame(&mut params, 0.5, -0.5);
    assert!((decibels(left) - (-12.0)).abs() < 0.001);
    assert_eq!(right, -left);
    assert!((engine.report().output_peak_db - (-12.0)).abs() < 0.001);
    assert!((engine.report().input_peak_db - (-6.0206)).abs() < 0.001);

    set(&mut params, PARAM_MATCH, 0.0);
    engine.begin_block(&params);
    let report = engine.report();
    assert_eq!(report.state, MatchState::Locked);
    assert!((report.locked_gain_db - (-5.9794)).abs() < 0.02);
    assert!((locked(&params) - report.locked_gain_db).abs() < 0.001);

    run_frames(&mut engine, &mut params, 0.25, 200);
    assert_eq!(engine.report().state, MatchState::Locked);
    assert!((engine.report().locked_gain_db - (-5.9794)).abs() < 0.02);
    assert!((engine.report().output_peak_db - (-18.0206)).abs() < 0.001);
}

#[test]
fn extended_measurement_keeps_later_peak_until_toggle_off() {
    let mut params = GainSnapParams::new();
    set(&mut params, PARAM_TARGET_DB, -12.0);
    let mut engine = Engine::new(1_000.0, 0.0);
    set(&mut params, PARAM_MATCH, 1.0);
    engine.begin_block(&params);
    run_frames(&mut engine, &mut params, 0.25, 500);
    assert_eq!(engine.report().state, MatchState::Measuring);
    assert!((engine.report().locked_gain_db - 0.0412).abs() < 0.02);

    // The peak arrives after the old fixed 0.5 second window. It must
    // still participate in the result while Match remains enabled.
    run_frames(&mut engine, &mut params, 0.5, 2_000);
    assert_eq!(engine.report().state, MatchState::Measuring);
    assert!((engine.report().locked_gain_db - (-5.9794)).abs() < 0.02);
    engine.begin_block(&params);
    run_frames(&mut engine, &mut params, 0.5, 64);
    assert!((engine.report().output_peak_db + 12.0).abs() < 0.001);

    set(&mut params, PARAM_MATCH, 0.0);
    engine.begin_block(&params);
    assert_eq!(engine.report().state, MatchState::Locked);
    assert!((engine.report().locked_gain_db - (-5.9794)).abs() < 0.02);
}

#[test]
fn turning_match_on_again_starts_a_fresh_measurement() {
    let mut params = GainSnapParams::new();
    let mut engine = Engine::new(1_000.0, 0.0);

    set(&mut params, PARAM_MATCH, 1.0);
    engine.begin_block(&params);
    run_frames(&mut engine, &mut params, 0.5, 100);
    set(&mut params, PARAM_MATCH, 0.0);
    engine.begin_block(&params);
    assert_eq!(engine.report().state, MatchState::Locked);

    set(&mut params, PARAM_MATCH, 1.0);
    engine.begin_block(&params);
    run_frames(&mut engine, &mut params, 0.25, 100);
    assert_eq!(engine.report().state, MatchState::Measuring);
    set(&mut params, PARAM_MATCH, 0.0);
    engine.begin_block(&params);
    assert_eq!(engine.report().state, MatchState::Locked);
    assert!((engine.report().locked_gain_db - 0.0412).abs() < 0.02);
}

#[test]
fn changing_target_while_matching_restarts_measurement_with_new_target() {
    let mut params = GainSnapParams::new();
    set(&mut params, PARAM_TARGET_DB, -12.0);
    set(&mut params, PARAM_MATCH, 1.0);
    let mut engine = Engine::new(1_000.0, 0.0);

    engine.begin_block(&params);
    run_frames(&mut engine, &mut params, 0.5, 100);

    // Normalize changes the target while Match is already enabled. The
    // engine must discard the old peak even if the host delivers only the
    // final Match=true state to the next processing block.
    set(&mut params, PARAM_TARGET_DB, 0.0);
    engine.begin_block(&params);
    run_frames(&mut engine, &mut params, 0.25, 1_200);

    engine.begin_block(&params);
    run_frames(&mut engine, &mut params, 0.25, 64);
    assert_eq!(engine.report().state, MatchState::Measuring);
    assert!(engine.report().output_peak_db.abs() < 0.001);

    set(&mut params, PARAM_MATCH, 0.0);
    engine.begin_block(&params);

    assert_eq!(engine.report().state, MatchState::Locked);
    assert!((engine.report().locked_gain_db - 12.0412).abs() < 0.02);
}

#[test]
fn silence_does_not_create_unbounded_gain() {
    let mut params = GainSnapParams::new();
    set(&mut params, PARAM_MATCH, 1.0);
    let mut engine = Engine::new(1_000.0, 3.0);
    engine.begin_block(&params);
    run_frames(&mut engine, &mut params, 0.0, 10_000);
    assert_eq!(engine.report().state, MatchState::Measuring);
    set(&mut params, PARAM_MATCH, 0.0);
    engine.begin_block(&params);
    assert_eq!(engine.report().state, MatchState::NoSignal);
    assert!((engine.report().locked_gain_db - 3.0).abs() < 0.001);
}

#[test]
fn non_finite_audio_is_silenced() {
    let mut params = GainSnapParams::new();
    let mut engine = Engine::new(48_000.0, 0.0);
    engine.begin_block(&params);
    let output = engine.process_frame(&mut params, f32::NAN, f32::INFINITY);
    assert_eq!(output, (0.0, 0.0));
    assert!(engine.report().input_peak_db <= -119.0);
}

#[test]
fn live_match_slews_and_toggle_off_does_not_change_audio() {
    let mut params = GainSnapParams::new();
    set(&mut params, PARAM_MATCH, 1.0);
    let mut engine = Engine::new(48_000.0, 0.0);
    engine.begin_block(&params);
    let first = engine.process_frame(&mut params, 0.5, 0.25).0;
    assert_eq!(first, 0.0);
    let mut previous = first;
    for _ in 0..48_000 {
        let (left, right) = engine.process_frame(&mut params, 0.5, 0.25);
        assert!(left >= previous);
        assert_eq!(right, left * 0.5);
        previous = left;
    }
    assert!((decibels(previous) + 12.0).abs() < 0.001);

    set(&mut params, PARAM_MATCH, 0.0);
    engine.sync_controls(&params);
    let held = engine.process_frame(&mut params, 0.5, 0.25).0;
    assert!((held - previous).abs() < 1.0e-6);
}

#[test]
fn live_match_keeps_gain_bounded_and_ignores_silence_and_invalid_samples() {
    for (input, expected_gain) in [(1.0e-5, f(CORRECTION_MAX_DB)), (16.0, f(CORRECTION_MIN_DB))] {
        let mut params = GainSnapParams::new();
        set(&mut params, PARAM_MATCH, 1.0);
        let mut engine = Engine::new(48_000.0, 0.0);
        engine.begin_block(&params);
        run_frames(&mut engine, &mut params, input, 9_600);
        assert_eq!(engine.report().locked_gain_db, expected_gain);
        let output = engine.process_frame(&mut params, f32::NAN, f32::INFINITY);
        assert_eq!(output, (0.0, 0.0));
        run_frames(&mut engine, &mut params, 0.0, 9_600);
        assert_eq!(locked(&params), expected_gain);
        assert!(engine.report().output_peak_db.is_finite());
    }
}

#[test]
fn match_fades_from_silence_even_after_preroll_with_a_stored_boost() {
    for sample_rate in [44_100.0, 48_000.0, 96_000.0, 192_000.0] {
        let mut params = GainSnapParams::new();
        set(&mut params, PARAM_LOCKED_GAIN_DB, 24.0);
        set(&mut params, PARAM_MATCH, 1.0);
        let mut engine = Engine::new(sample_rate, 24.0);
        engine.begin_block(&params);
        run_frames(&mut engine, &mut params, 0.0, sample_rate as usize);
        let ceiling = 10.0_f32.powf(-12.0 / 20.0);
        let mut output = 0.0;
        for frame in 0..(sample_rate * 1.5) as usize {
            if frame % 64 == 0 {
                engine.begin_block(&params);
            }
            let (left, right) = engine.process_frame(&mut params, 1.0, -0.5);
            assert!(left <= ceiling);
            assert_eq!(right, -left * 0.5);
            if frame == 0 {
                assert_eq!(left, 0.0);
            }
            if frame == (sample_rate * 0.1) as usize {
                assert!(left < ceiling * 0.3 && left > 0.0);
            }
            output = left;
        }
        assert!((decibels(output) + 12.0).abs() < 0.002);
    }
}

#[test]
fn a_loud_burst_after_quiet_matching_cannot_exceed_the_target() {
    for target in [-36.0, -12.0, 0.0] {
        let mut params = GainSnapParams::new();
        set(&mut params, PARAM_TARGET_DB, target);
        set(&mut params, PARAM_MATCH, 1.0);
        let mut engine = Engine::new(48_000.0, 0.0);
        engine.begin_block(&params);
        // Give the matcher time to learn a large boost on quiet audio.
        run_frames(&mut engine, &mut params, 0.0001, 96_000);
        assert_eq!(locked(&params), f(CORRECTION_MAX_DB));
        engine.begin_block(&params);
        let ceiling = 10.0_f32.powf(target / 20.0);
        let mut actual_peak = 0.0_f32;
        for input in [1.0, -1.0, 8.0, -8.0, f32::MAX, -f32::MAX] {
            let (left, right) = engine.process_frame(&mut params, input, -input * 0.5);
            assert!(left.is_finite() && right.is_finite());
            assert!(left.abs() <= ceiling && right.abs() <= ceiling);
            assert!((right + left * 0.5).abs() < 1.0e-6);
            actual_peak = actual_peak.max(left.abs()).max(right.abs());
        }
        assert_eq!(engine.report().output_peak_db, decibels(actual_peak));
    }
}

#[test]
fn extreme_startup_peaks_follow_the_fade_ceiling() {
    for input in [8.0, f32::MAX] {
        let mut params = GainSnapParams::new();
        set(&mut params, PARAM_LOCKED_GAIN_DB, 24.0);
        set(&mut params, PARAM_MATCH, 1.0);
        let mut engine = Engine::new(48_000.0, 24.0);
        engine.begin_block(&params);
        let ceiling = 10.0_f32.powf(-12.0 / 20.0);
        for frame in 0..14_400 {
            let (left, right) = engine.process_frame(&mut params, input, -input * 0.5);
            let position = frame as f32 / 14_400.0;
            let envelope = position * position * (3.0 - 2.0 * position);
            assert!(
                left <= ceiling * envelope + 0.0001,
                "startup escaped the fade at sample {frame}: {left}"
            );
            assert!((right + left * 0.5).abs() < 1.0e-6);
        }
    }
}

#[test]
fn output_guard_protects_held_gain_and_recovers_smoothly_without_boosting() {
    let mut params = GainSnapParams::new();
    set(&mut params, PARAM_LOCKED_GAIN_DB, 24.0);
    let mut engine = Engine::new(48_000.0, 24.0);
    engine.begin_block(&params);
    let (left, right) = engine.process_frame(&mut params, 8.0, -4.0);
    assert!(left <= 1.0 && left > 0.99);
    assert_eq!(right, -left * 0.5);
    let mut previous = 0.0;
    for _ in 0..96_000 {
        let left = engine.process_frame(&mut params, 0.001, 0.0).0;
        assert!(left >= previous);
        assert!(left <= 0.001 * gain_factor(24.0));
        previous = left;
    }
    assert!((decibels(previous) - (-36.0)).abs() < 0.002);
}

#[test]
fn early_match_off_and_reengagement_keep_the_quiet_start() {
    let mut params = GainSnapParams::new();
    set(&mut params, PARAM_MATCH, 1.0);
    let mut engine = Engine::new(48_000.0, 0.0);
    engine.begin_block(&params);
    run_frames(&mut engine, &mut params, 1.0, 480);
    let before_off = engine.process_frame(&mut params, 1.0, 1.0).0;
    set(&mut params, PARAM_MATCH, 0.0);
    engine.sync_controls(&params);
    let after_off = engine.process_frame(&mut params, 1.0, 1.0).0;
    assert!((after_off - before_off).abs() < 0.0001);
    assert!(after_off < 0.01);

    run_frames(&mut engine, &mut params, 1.0, 48_000);
    let before_restart = engine.process_frame(&mut params, 1.0, -1.0);
    set(&mut params, PARAM_MATCH, 1.0);
    engine.sync_controls(&params);
    let after_restart = engine.process_frame(&mut params, 1.0, -1.0);
    assert!((after_restart.0 - before_restart.0).abs() < 1.0e-6);
    run_frames(&mut engine, &mut params, 1.0, 480);
    assert!(engine.process_frame(&mut params, 1.0, -1.0).0 < 0.0001);
}

#[test]
fn target_edits_fade_out_before_enforcing_the_new_ceiling() {
    let mut params = GainSnapParams::new();
    set(&mut params, PARAM_TARGET_DB, 0.0);
    set(&mut params, PARAM_MATCH, 1.0);
    let mut engine = Engine::new(48_000.0, 0.0);
    engine.begin_block(&params);
    run_frames(&mut engine, &mut params, 1.0, 48_000);
    set(&mut params, PARAM_TARGET_DB, -36.0);
    engine.sync_controls(&params);
    let (left, right) = engine.process_frame(&mut params, 1.0, 0.5);
    assert!((left - 1.0).abs() < 0.0001);
    assert_eq!(right, left * 0.5);
    run_frames(&mut engine, &mut params, 1.0, 480);
    for _ in 0..48_000 {
        let (left, right) = engine.process_frame(&mut params, 1.0, 0.5);
        assert!(left <= 10.0_f32.powf(-36.0 / 20.0));
        assert_eq!(right, left * 0.5);
    }
}

#[test]
fn engaging_match_on_playing_audio_has_no_hard_mute_or_large_step() {
    for sample_rate in [44_100.0, 48_000.0, 96_000.0, 192_000.0] {
        for target in [-36.0, -12.0, 0.0] {
            let mut params = GainSnapParams::new();
            set(&mut params, PARAM_TARGET_DB, target);
            let mut engine = Engine::new(sample_rate, 0.0);
            engine.begin_block(&params);
            run_frames(&mut engine, &mut params, 0.5, 128);
            let mut previous = engine.process_frame(&mut params, 0.5, -0.25).0;
            set(&mut params, PARAM_MATCH, 1.0);
            engine.sync_controls(&params);
            let first = engine.process_frame(&mut params, 0.5, -0.25).0;
            assert!((first - previous).abs() < 1.0e-6);
            let mut quietest = first;
            for _ in 0..sample_rate as usize {
                let (left, right) = engine.process_frame(&mut params, 0.5, -0.25);
                assert!(
                    (left - previous).abs() < 0.002,
                    "Match introduced a step at {sample_rate} Hz: {previous} -> {left}"
                );
                assert_eq!(right, -left * 0.5);
                quietest = quietest.min(left);
                previous = left;
            }
            assert!(quietest < 1.0e-6, "transition must pass through silence");
            assert!((decibels(previous) - target).abs() < 0.002);
        }
    }
}

#[test]
fn rapid_match_restarts_keep_the_current_audible_gain() {
    for restart_after in [1, 17, 240, 481, 2_000] {
        let mut params = GainSnapParams::new();
        let mut engine = Engine::new(48_000.0, 0.0);
        engine.begin_block(&params);
        run_frames(&mut engine, &mut params, 0.5, 128);
        set(&mut params, PARAM_MATCH, 1.0);
        engine.sync_controls(&params);
        run_frames(&mut engine, &mut params, 0.5, restart_after);
        let before = engine.process_frame(&mut params, 0.5, -0.25);
        set(&mut params, PARAM_MATCH, 0.0);
        engine.sync_controls(&params);
        set(&mut params, PARAM_MATCH, 1.0);
        engine.sync_controls(&params);
        let after = engine.process_frame(&mut params, 0.5, -0.25);
        assert!((after.0 - before.0).abs() < 1.0e-6);
        assert_eq!(after.1, -after.0 * 0.5);
    }
}

#[test]
fn engagement_preserves_the_waveform_at_nonzero_sine_phases() {
    for phase in [0.1_f32, 0.7, 1.5, 2.7, 3.3, 4.6, 5.8] {
        let mut params = GainSnapParams::new();
        let mut engine = Engine::new(48_000.0, 0.0);
        engine.begin_block(&params);
        let input = phase.sin() * 0.7;
        engine.process_frame(&mut params, input, -input);
        set(&mut params, PARAM_MATCH, 1.0);
        engine.sync_controls(&params);
        let next = (phase + std::f32::consts::TAU * 1_000.0 / 48_000.0).sin() * 0.7;
        let output = engine.process_frame(&mut params, next, -next);
        assert!((output.0 - next).abs() < 1.0e-6);
        assert_eq!(output.1, -output.0);
    }
}

#[test]
fn disabling_match_without_signal_does_not_leave_output_muted() {
    let mut params = GainSnapParams::new();
    set(&mut params, PARAM_MATCH, 1.0);
    let mut engine = Engine::new(48_000.0, 0.0);
    engine.begin_block(&params);
    run_frames(&mut engine, &mut params, 0.0, 48_000);
    set(&mut params, PARAM_MATCH, 0.0);
    engine.sync_controls(&params);
    assert_eq!(engine.report().state, MatchState::NoSignal);
    run_frames(&mut engine, &mut params, 0.1, 48_000);
    assert_eq!(engine.process_frame(&mut params, 0.1, -0.1), (0.1, -0.1));
}

#[test]
fn host_processing_reset_restarts_the_match_fade() {
    let mut params = GainSnapParams::new();
    set(&mut params, PARAM_MATCH, 1.0);
    let mut engine = Engine::new(48_000.0, 0.0);
    engine.begin_block(&params);
    run_frames(&mut engine, &mut params, 0.5, 48_000);
    engine.reset(&params);
    engine.begin_block(&params);
    assert_eq!(engine.process_frame(&mut params, 1.0, -1.0), (0.0, -0.0));
}

fn parameter_event(value: f32) -> ParamEvent {
    classify_clap_parameter(true, Some(PARAM_MATCH), value.to_bits()).expect("a known parameter")
}

fn run_timeline(
    timeline: &mut ParamTimeline,
    params: &mut GainSnapParams,
    engine: &mut Engine,
    samples: &[f32],
) {
    engine.begin_block(params);
    let mut run = BlockRun::new(samples.len());
    loop {
        match run.next_step(timeline, params) {
            BlockStep::Render { start, end } => {
                for sample in &samples[start..end] {
                    let _ = engine.process_frame(params, *sample, *sample);
                }
            }
            BlockStep::Follow => engine.sync_controls(params),
            BlockStep::Finish => return,
        }
    }
}

fn offsets(timeline: &ParamTimeline) -> Vec<usize> {
    (0..timeline.len())
        .filter_map(|index| timeline.get(index))
        .map(|event| event.offset)
        .collect()
}

#[test]
fn clap_off_event_at_nonzero_offset_finalizes_prior_frames_only() {
    let mut timeline = ParamTimeline::new();
    timeline.begin_block(1024);
    timeline.push(0, parameter_event(1.0));
    timeline.push(512, parameter_event(0.0));
    timeline.prepare();
    assert_eq!(offsets(&timeline), vec![0, 512]);

    let mut samples = [0.25_f32; 1024];
    samples[512..].fill(0.9);
    let mut params = GainSnapParams::new();
    let mut engine = Engine::new(48_000.0, 0.0);
    run_timeline(&mut timeline, &mut params, &mut engine, &samples);

    assert_eq!(engine.report().state, MatchState::Locked);
    assert!((engine.report().locked_gain_db - 0.0412).abs() < 0.02);
}

#[test]
fn clap_on_event_at_nonzero_offset_starts_measurement_there() {
    let mut timeline = ParamTimeline::new();
    timeline.begin_block(1024);
    timeline.push(512, parameter_event(1.0));
    timeline.push(1024, parameter_event(0.0));
    timeline.prepare();
    assert_eq!(offsets(&timeline), vec![512, 1024]);

    let mut samples = [0.9_f32; 1024];
    samples[512..].fill(0.25);
    let mut params = GainSnapParams::new();
    let mut engine = Engine::new(48_000.0, 0.0);
    run_timeline(&mut timeline, &mut params, &mut engine, &samples);

    assert_eq!(engine.report().state, MatchState::Locked);
    assert!((engine.report().locked_gain_db - 0.0412).abs() < 0.02);
}

#[test]
fn clap_overflow_match_off_converges_before_next_block() {
    let mut timeline = ParamTimeline::new();
    timeline.begin_block(1024);
    for _ in 0..PARAM_EVENT_CAPACITY {
        timeline.push(0, parameter_event(1.0));
    }
    timeline.push(1024, parameter_event(0.0));
    timeline.prepare();

    assert_eq!(timeline.len(), PARAM_EVENT_CAPACITY);
    assert_eq!(
        timeline
            .overflowed(PARAM_MATCH)
            .map(|event| (event.param_id, f(event.value))),
        Some((PARAM_MATCH, 0.0))
    );

    let mut params = GainSnapParams::new();
    let mut engine = Engine::new(48_000.0, 0.0);
    run_timeline(&mut timeline, &mut params, &mut engine, &[0.25; 1024]);
    timeline.apply_overflow(&mut params);
    engine.sync_controls(&params);

    assert_eq!(engine.report().state, MatchState::Locked);
    assert!((engine.report().locked_gain_db - 0.0412).abs() < 0.02);
    engine.begin_block(&params);
    assert_eq!(engine.report().state, MatchState::Locked);
}

#[test]
fn block_end_match_off_is_finalized_before_vst3_return() {
    let mut params = GainSnapParams::new();
    set(&mut params, PARAM_MATCH, 1.0);
    let mut engine = Engine::new(1_000.0, f(params.locked_gain_db()));
    let mut timeline = ParamTimeline::new();
    timeline.begin_block(64);
    timeline.push(
        64,
        ParamEvent {
            offset: 0,
            sequence: 0,
            param_id: PARAM_MATCH,
            value: 0.0_f32.to_bits(),
        },
    );
    timeline.prepare();
    engine.begin_block(&params);
    for _ in 0..64 {
        let _ = engine.process_frame(&mut params, 0.25, 0.25);
    }

    timeline.apply_remaining(&mut params);
    engine.sync_controls(&params);

    assert_eq!(engine.report().state, MatchState::Locked);
    assert!((engine.report().locked_gain_db - 0.0412).abs() < 0.02);
}

#[test]
fn a_restart_request_discards_the_evidence_of_an_open_measurement() {
    let mut params = GainSnapParams::new();
    set(&mut params, PARAM_MATCH, 1.0);
    let mut engine = Engine::new(1_000.0, 0.0);
    engine.begin_block(&params);
    run_frames(&mut engine, &mut params, 0.5, 500);
    assert!((locked(&params) + 5.9794).abs() < 0.02);
    run_frames(&mut engine, &mut params, 0.25, 100);
    assert!((locked(&params) + 5.9794).abs() < 0.02);
    params.request_restart();
    engine.sync_controls(&params);
    assert_eq!(engine.rolling_measurement_peak(), 0.0);
    run_frames(&mut engine, &mut params, 0.25, 1);
    assert!((locked(&params) - 0.0412).abs() < 0.02);
    assert_eq!(engine.report().state, MatchState::Measuring);
}

#[test]
fn an_answer_that_was_not_asked_for_changes_nothing() {
    let mut params = rms_params();
    let mut engine = Engine::new(1_000.0, 0.0);
    engine.begin_block(&params);
    let mut frame = engine
        .inner
        .process_frame(0.5_f32.to_bits(), 0.5_f32.to_bits());
    let asked = frame.ask(&engine.inner);
    assert!(matches!(asked, Some(Ask::Sums { .. })));
    frame.reply(&mut engine.inner, &mut params, Reply::Number(0));
    assert_eq!(frame.ask(&engine.inner), asked);
    assert_eq!(frame.output(), None);
}

#[test]
fn output_stays_under_the_ceiling_of_its_frame() {
    for (rms_mode, ceiling) in [(0.0, target_peak(-12.0)), (1.0, 1.0)] {
        let mut params = GainSnapParams::new();
        set(&mut params, PARAM_RMS_MODE, rms_mode);
        set(&mut params, PARAM_MATCH, 1.0);
        let mut engine = Engine::new(48_000.0, 24.0);
        engine.begin_block(&params);
        for frame in 0..48_000 {
            let sample = if frame % 7 == 0 { 40.0 } else { 0.02 };
            let (left, right) = engine.process_frame(&mut params, sample, -sample);
            assert!(left.abs() <= ceiling && right.abs() <= ceiling);
        }
    }
}

#[test]
fn one_usable_sample_since_the_start_locks_the_gain() {
    for rms_mode in [0.0, 1.0] {
        for (level, state) in [
            (0.0, MatchState::NoSignal),
            (f(SILENCE_PEAK_LINEAR), MatchState::NoSignal),
            (0.000_002, MatchState::Locked),
            (0.5, MatchState::Locked),
        ] {
            let mut params = GainSnapParams::new();
            set(&mut params, PARAM_RMS_MODE, rms_mode);
            set(&mut params, PARAM_MATCH, 1.0);
            let mut engine = Engine::new(8_000.0, 0.0);
            engine.begin_block(&params);
            run_frames(&mut engine, &mut params, 0.0, 100);
            let _ = engine.process_frame(&mut params, 0.0, -level);
            run_frames(&mut engine, &mut params, 0.0, 40_000);
            set(&mut params, PARAM_MATCH, 0.0);
            engine.sync_controls(&params);
            assert_eq!(engine.report().state, state, "{level}");
        }
    }
}

#[test]
fn a_signal_before_the_last_start_does_not_lock_the_gain() {
    let mut params = GainSnapParams::new();
    set(&mut params, PARAM_MATCH, 1.0);
    let mut engine = Engine::new(8_000.0, 0.0);
    engine.begin_block(&params);
    run_frames(&mut engine, &mut params, 0.5, 100);
    set(&mut params, PARAM_TARGET_DB, -20.0);
    engine.sync_controls(&params);
    run_frames(&mut engine, &mut params, 0.0, 100);
    set(&mut params, PARAM_MATCH, 0.0);
    engine.sync_controls(&params);
    assert_eq!(engine.report().state, MatchState::NoSignal);
}

#[test]
fn reports_hold_the_highest_peaks_of_their_block() {
    let mut params = GainSnapParams::new();
    let mut engine = Engine::new(48_000.0, 0.0);
    engine.begin_block(&params);
    for (left, right) in [(0.1, -0.2), (0.05, -0.75), (0.5, 0.0), (f32::NAN, 0.25)] {
        let _ = engine.process_frame(&mut params, left, right);
    }
    engine.sync_controls(&params);
    let _ = engine.process_frame(&mut params, 0.3, 0.3);
    assert_eq!(f(engine.inner.block_peaks().input), 0.75);
    assert_eq!(f(engine.inner.block_peaks().output), 0.75);
    engine.begin_block(&params);
    let _ = engine.process_frame(&mut params, 0.25, -0.125);
    assert_eq!(f(engine.inner.block_peaks().input), 0.25);
    assert_eq!(f(engine.inner.block_peaks().output), 0.25);
}

#[test]
fn the_first_frame_after_a_start_fades_down_what_was_heard() {
    let mut params = GainSnapParams::new();
    let mut engine = Engine::new(48_000.0, 0.0);
    engine.begin_block(&params);
    run_frames(&mut engine, &mut params, 0.5, 16);
    set(&mut params, PARAM_MATCH, 1.0);
    engine.sync_controls(&params);
    for (sample, gain) in [(0.5, 1.0), (4.0, 0.25)] {
        let mut frame = engine
            .inner
            .process_frame(f32::to_bits(sample), f32::to_bits(-sample));
        let mut fades = Vec::new();
        while let Some(ask) = frame.ask(&engine.inner) {
            if let Ask::Faded {
                falling,
                position,
                gain,
                ceiling,
                ..
            } = ask
            {
                fades.push((falling, f(position), f(gain), f(ceiling)));
            }
            frame.reply(&mut engine.inner, &mut params, answer(ask));
        }
        assert_eq!(fades, vec![(true, 0.0, gain, 1.0)]);
        set(&mut params, PARAM_MATCH, 0.0);
        engine.reset(&params);
        engine.begin_block(&params);
        run_frames(&mut engine, &mut params, 0.5, 16);
        set(&mut params, PARAM_MATCH, 1.0);
        engine.sync_controls(&params);
    }
}
