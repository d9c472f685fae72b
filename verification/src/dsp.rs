//! The Peak/RMS matcher: what is measured, which gain it leads to, when that
//! gain takes effect, and how far a sample may go.
//!
//! One frame passes through the engine in this order, the caller doing the
//! arithmetic in between:
//!
//! 1. [`GainSnapEngine::observe_input`] takes the input samples; where it asks
//!    for them, [`GainSnapEngine::record_input`] takes the squares;
//! 2. [`GainSnapEngine::observe_measurement`] notes the levels; where it asks
//!    for an evaluation, [`GainSnapEngine::consider_measurement_candidate`]
//!    decides, and [`GainSnapEngine::publish_measurement_gain`] takes the gain
//!    over;
//! 3. [`GainSnapEngine::advance_measurement_history`] closes the measurement;
//! 4. [`GainSnapEngine::settle_gain`] and [`GainSnapEngine::advance_fade`] move
//!    the gain and the fades on;
//! 5. [`GainSnapEngine::settle_guard`] bounds the gain, and the output is either
//!    the outgoing fade ([`GainSnapEngine::hold_fade_out_gain`],
//!    [`GainSnapEngine::finish_fade_out`]) or the matched signal
//!    ([`GainSnapEngine::finish_fade_in`]);
//! 6. [`GainSnapEngine::record_output`] meters what goes out.
use vstd::prelude::*;

use crate::detector::RmsDetector;
use crate::double;
use crate::history::{highest, silent_buckets, RollingMaximum};
use crate::matcher::{
    advanced, allowed, at_least_one, bounded_gain, candidate_level, candidate_of, cleared, counted,
    decided, evidenced, fade_advanced, faded, finished, heard, initial, level_in_db, negated,
    published, published_db, restarted, settled, stayed, synchronized, takes_effect, unsettled,
    usable, window_counts, window_open, BlockPeaks, Candidate, CandidateReadings, ControlReadings,
    EngineReport, Fade, FrameFade, FrameInput, Gain, LastOutput, Matcher, Observation, Stability,
    Target, Timing, CORRECTION_MAX_DB, CORRECTION_MIN_DB, GAIN_MAX_LINEAR, GAIN_MIN_LINEAR,
    GAIN_STEP_DB, SILENCE_PEAK_LINEAR,
};
use crate::params::{gain_in_range, sanitize_gain, with_param, GainSnapParams, PARAM_LOCKED_GAIN_DB};
use crate::single;
use crate::status::{MatchState, LOUDEST_DB, SILENT_DB};

verus! {

/// Time in which a gain reduction settles: 0.01 s.
pub const GAIN_SMOOTHING_SECONDS: u32 = 0x3c23_d70a;

/// Time in which a gain increase settles: 0.1 s.
pub const GAIN_INCREASE_SECONDS: u32 = 0x3dcc_cccd;

/// Length of the fade up after Match was engaged: 0.3 s.
pub const MATCH_FADE_SECONDS: u32 = 0x3e99_999a;

/// Length of the fade down before Match starts over: 0.01 s.
pub const MATCH_FADE_OUT_SECONDS: u32 = 0x3c23_d70a;

/// Recovery time of the peak guard: 0.1 s.
pub const PEAK_GUARD_RELEASE_SECONDS: u32 = 0x3dcc_cccd;

/// Length of a complete RMS window: 0.3 s.
pub const RMS_AVERAGING_SECONDS: u32 = 0x3e99_999a;

/// Length of one history bucket: 0.1 s.
pub const MATCH_HISTORY_BUCKET_SECONDS: u32 = 0x3dcc_cccd;

/// Time for which a quieter level has to stay put: 0.3 s.
pub const MATCH_ADAPTATION_SETTLE_SECONDS: u32 = 0x3e99_999a;

/// Silence after which a new signal gets a fresh start: 2 s.
pub const RMS_SILENCE_SECONDS: u32 = 0x4000_0000;

/// How far a quieter level may move and still count as staying put: the ratio
/// of half a decibel.
pub const MATCH_ADAPTATION_STABILITY_RATIO: u32 = 0x3f87_95a0;

/// Highest sample rate that is taken as it is: 384 kHz.
pub const MAX_SUPPORTED_SAMPLE_RATE: u32 = 0x48bb_8000;

/// Sample rate that stands in for one that is not a finite number: 48 kHz.
pub const FALLBACK_SAMPLE_RATE: u32 = 0x473b_8000;

fn is_usable(level: u32) -> (result: bool)
    ensures
        result == usable(level),
{
    single::less(SILENCE_PEAK_LINEAR, level)
}

fn one_or_more(count: u64) -> (result: u64)
    ensures
        result == at_least_one(count),
{
    if count == 0 {
        1
    } else {
        count
    }
}

/// Bring a host sample rate into the supported range.
pub fn supported_sample_rate(sample_rate: u32) -> (result: u32)
    ensures
        result == single::sanitized(
            sample_rate,
            single::ONE,
            MAX_SUPPORTED_SAMPLE_RATE,
            FALLBACK_SAMPLE_RATE,
        ),
        single::at_most(0x3f80_0000, sample_rate) && single::at_most(sample_rate, 0x48bb_8000)
            ==> result == sample_rate,
        single::finite(sample_rate) && single::below(sample_rate, 0x3f80_0000) ==> result
            == 0x3f80_0000,
        single::finite(sample_rate) && single::below(0x48bb_8000, sample_rate) ==> result
            == 0x48bb_8000,
        !single::finite(sample_rate) ==> result == 0x473b_8000,
{
    single::sanitize(sample_rate, single::ONE, MAX_SUPPORTED_SAMPLE_RATE, FALLBACK_SAMPLE_RATE)
}

/// Finish a conversion from decibels to a factor, where `factor` is the one for
/// the level in the range of gains; unity where there is no finite level.
pub fn db_to_linear(db: u32, factor: u32) -> (result: u32)
    ensures
        result == (if single::finite(db) {
            single::larger(factor, single::ZERO)
        } else {
            single::ONE
        }),
        single::finite(db) && single::below(single::ZERO, factor) ==> result == factor,
        !single::finite(db) ==> result == 0x3f80_0000,
        single::at_most(single::ZERO, result),
{
    if single::is_finite(db) {
        single::max(factor, single::ZERO)
    } else {
        single::ONE
    }
}

/// Finish a conversion from a linear peak to decibels, where `decibels` is its
/// logarithm; silence where the peak is not usable.
pub fn linear_to_db(linear: u32, decibels: u32) -> (result: u32)
    ensures
        result == level_in_db(linear, decibels),
{
    if single::is_finite(linear) && is_usable(linear) {
        single::clamp(decibels, SILENT_DB, LOUDEST_DB)
    } else {
        SILENT_DB
    }
}

/// Compute [`published_db`].
pub fn publishable_gain_db(gain_db: u32) -> (result: u32)
    ensures
        result == published_db(gain_db),
{
    sanitize_gain(single::clamp(gain_db, CORRECTION_MIN_DB, CORRECTION_MAX_DB))
}

/// Compute [`allowed`].
pub fn allowed_gain(peak: u32, quotient: u32) -> (result: u32)
    ensures
        result == allowed(peak, quotient),
{
    if single::less(single::ZERO, peak) {
        quotient
    } else {
        single::LARGEST
    }
}

/// Bound a sample to its ceiling.
pub fn protect(sample: u32, ceiling: u32) -> (result: u32)
    ensures
        result == single::clamped(sample, negated(ceiling), ceiling),
        single::is_level(ceiling) && single::magnitude(sample) <= ceiling ==> result == sample,
        single::is_level(ceiling) && !single::nan(sample) ==> single::magnitude(result) <= ceiling,
{
    let floor: u32 = if ceiling < single::SIGN {
        ceiling + single::SIGN
    } else {
        ceiling - single::SIGN
    };
    single::clamp(sample, floor, ceiling)
}

/// Per-instance matcher and gain smoother, owned by the audio side.
pub struct GainSnapEngine {
    timing: Timing,
    rms_mode: bool,
    measurement_rms_mode: bool,
    rms_frames: u64,
    rms_quiet_frames: u64,
    input_rms: RmsDetector,
    output_rms: RmsDetector,
    peaks: RollingMaximum,
    levels: RollingMaximum,
    bucket_position: u64,
    measurement_level: u32,
    stability: Stability,
    rms_candidate_seen: bool,
    force_measurement_update: bool,
    fade: Fade,
    last: LastOutput,
    block: BlockPeaks,
    target: Target,
    gain: Gain,
    previous_match_request: bool,
    restart_generation: u32,
    state: MatchState,
}

impl View for GainSnapEngine {
    type V = Matcher;

    closed spec fn view(&self) -> Matcher {
        Matcher {
            timing: self.timing,
            rms_mode: self.rms_mode,
            measurement_rms_mode: self.measurement_rms_mode,
            rms_frames: self.rms_frames,
            quiet_frames: self.rms_quiet_frames,
            input: self.input_rms@,
            output: self.output_rms@,
            peaks: self.peaks@,
            levels: self.levels@,
            bucket_position: self.bucket_position,
            measurement_level: self.measurement_level,
            stability: self.stability,
            candidate_seen: self.rms_candidate_seen,
            force_update: self.force_measurement_update,
            fade: self.fade,
            last: self.last,
            block: self.block,
            target: self.target,
            gain: self.gain,
            requested: self.previous_match_request,
            restart_generation: self.restart_generation,
            state: self.state,
        }
    }
}

impl GainSnapEngine {
    /// The engine's invariant: its windows and histories are sound, and the
    /// newest bucket is not full.
    pub closed spec fn wf(&self) -> bool {
        &&& self.input_rms.wf()
        &&& self.output_rms.wf()
        &&& self.peaks.wf()
        &&& self.levels.wf()
        &&& self.bucket_position < self.timing.bucket_frames
    }

    /// Construct an engine with a stored gain. Counts of frames are at least 1.
    pub fn new(
        timing: Timing,
        window_frames: usize,
        stored_gain_db: u32,
        gain_linear: u32,
        gain_double: u64,
        target: Target,
    ) -> (result: Self)
        ensures
            result.wf(),
            result@ == initial(
                Timing {
                    silence_frames: at_least_one(timing.silence_frames),
                    bucket_frames: at_least_one(timing.bucket_frames),
                    stability_frames: at_least_one(timing.stability_frames),
                    ..timing
                },
                at_least_one(window_frames as u64) as nat,
                gain_in_range(stored_gain_db),
                gain_linear,
                gain_double,
                target,
            ),
    {
        let timing = Timing {
            silence_frames: one_or_more(timing.silence_frames),
            bucket_frames: one_or_more(timing.bucket_frames),
            stability_frames: one_or_more(timing.stability_frames),
            reduction_coefficient: timing.reduction_coefficient,
            increase_coefficient: timing.increase_coefficient,
            release_coefficient: timing.release_coefficient,
            fade_in_step: timing.fade_in_step,
            fade_out_step: timing.fade_out_step,
        };
        let result = GainSnapEngine {
            timing,
            rms_mode: false,
            measurement_rms_mode: false,
            rms_frames: 0,
            rms_quiet_frames: 0,
            input_rms: RmsDetector::new(window_frames),
            output_rms: RmsDetector::new(window_frames),
            peaks: RollingMaximum::new(),
            levels: RollingMaximum::new(),
            bucket_position: 0,
            measurement_level: single::ZERO,
            stability: Stability {
                frames: 0,
                anchor_gain: single::ZERO,
                anchor_level: single::ZERO,
            },
            rms_candidate_seen: false,
            force_measurement_update: false,
            fade: Fade {
                in_position: single::ONE,
                out_position: single::ONE,
                out_gain: single::ZERO,
                out_ceiling: single::ONE,
            },
            last: LastOutput { gain: gain_linear, ceiling: single::ONE, peak: single::ZERO },
            block: BlockPeaks { input: single::ZERO, output: single::ZERO },
            target,
            gain: Gain {
                locked_db: sanitize_gain(stored_gain_db),
                linear: gain_linear,
                target: gain_double,
                current: gain_double,
                guard: double::ONE,
            },
            previous_match_request: false,
            restart_generation: 0,
            state: MatchState::Ready,
        };
        result
    }

    /// Forget the peaks of the last block and follow the controls.
    pub fn begin_block(&mut self, params: &GainSnapParams, readings: ControlReadings)
        requires
            old(self).wf(),
        ensures
            final(self).wf(),
            final(self)@ == synchronized(
                Matcher {
                    block: BlockPeaks { input: single::ZERO, output: single::ZERO },
                    ..old(self)@
                },
                params@,
                readings,
            ),
            final(self)@.block.input == 0,
            final(self)@.block.output == 0,
    {
        self.block = BlockPeaks { input: single::ZERO, output: single::ZERO };
        self.sync_controls(params, readings);
    }

    /// Forget the measurement at a host processing boundary.
    pub fn reset(&mut self, params: &GainSnapParams, readings: ControlReadings)
        requires
            old(self).wf(),
        ensures
            final(self).wf(),
            final(self)@ == cleared(old(self)@, params@, readings),
    {
        self.measurement_level = single::ZERO;
        self.rms_mode = params.rms_mode();
        self.measurement_rms_mode = self.rms_mode;
        self.input_rms.reset();
        self.output_rms.reset();
        self.rms_frames = 0;
        self.rms_quiet_frames = 0;
        self.reset_measurement_history();
        self.reset_measurement_stability();
        self.rms_candidate_seen = false;
        self.block = BlockPeaks { input: single::ZERO, output: single::ZERO };
        self.target = Target { db: params.target_db(), peak: readings.target_peak };
        self.gain = Gain {
            locked_db: params.locked_gain_db(),
            linear: readings.gain_linear,
            target: readings.gain_double,
            current: readings.gain_double,
            guard: double::ONE,
        };
        self.fade = Fade {
            in_position: single::ONE,
            out_position: single::ONE,
            out_gain: single::ZERO,
            out_ceiling: single::ONE,
        };
        self.last = LastOutput {
            gain: readings.gain_linear,
            ceiling: single::ONE,
            peak: single::ZERO,
        };
        self.previous_match_request = false;
        self.restart_generation = params.restart_generation();
        self.state = MatchState::Ready;
    }

    /// Follow the controls after a parameter event.
    pub fn sync_controls(&mut self, params: &GainSnapParams, readings: ControlReadings)
        requires
            old(self).wf(),
        ensures
            final(self).wf(),
            final(self)@ == synchronized(old(self)@, params@, readings),
    {
        let request: bool = params.match_requested();
        let mode_changed: bool = self.rms_mode != params.rms_mode();
        let restart_requested: bool = self.restart_generation != params.restart_generation();
        self.rms_mode = params.rms_mode();
        self.restart_generation = params.restart_generation();
        let mut measurement_finished: bool = false;

        if !request {
            if self.previous_match_request && self.state == MatchState::Measuring {
                self.finish_measurement();
                measurement_finished = true;
            }
            self.previous_match_request = false;
        } else if !self.previous_match_request || mode_changed {
            self.target = Target { db: params.target_db(), peak: readings.target_peak };
            self.state = MatchState::Measuring;
            self.previous_match_request = true;
            self.start_match_transition();
        } else if self.state == MatchState::Measuring {
            // A target edit while Match is active starts a fresh measurement, so
            // that it works with a host that merges the Match events of a block.
            if single::less(single::EPSILON, readings.target_distance) || restart_requested {
                self.target = Target { db: params.target_db(), peak: readings.target_peak };
                self.start_match_transition();
            }
        }
        if !measurement_finished && self.state != MatchState::Measuring && single::less(
            GAIN_STEP_DB,
            readings.gain_distance,
        ) {
            self.gain.locked_db = params.locked_gain_db();
            self.gain.target = readings.gain_double;
            self.gain.linear = readings.gain_linear;
        }
        assert(self@ =~= synchronized(old(self)@, params@, readings));
    }

    fn start_match_transition(&mut self)
        requires
            old(self).wf(),
        ensures
            final(self).wf(),
            final(self)@ == restarted(old(self)@),
    {
        self.measurement_rms_mode = self.rms_mode;
        self.input_rms.reset();
        self.rms_frames = 0;
        self.rms_quiet_frames = 0;
        self.measurement_level = single::ZERO;
        self.reset_measurement_history();
        self.reset_measurement_stability();
        self.rms_candidate_seen = false;
        self.force_measurement_update = true;
        // What goes down is the gain that was heard, including an earlier fade:
        // starting over in mid-fade must not jump back to the full gain.
        self.fade = Fade {
            in_position: single::ZERO,
            out_position: if is_usable(self.last.peak) {
                single::ZERO
            } else {
                single::ONE
            },
            out_gain: self.last.gain,
            out_ceiling: self.last.ceiling,
        };
    }

    fn reset_measurement_history(&mut self)
        requires
            old(self).wf(),
        ensures
            final(self).wf(),
            final(self)@ == (Matcher {
                peaks: silent_buckets(),
                levels: silent_buckets(),
                bucket_position: 0,
                ..old(self)@
            }),
    {
        self.bucket_position = 0;
        self.peaks.reset();
        self.levels.reset();
    }

    fn reset_measurement_stability(&mut self)
        ensures
            final(self)@ == (Matcher { stability: unsettled(), ..old(self)@ }),
            old(self).wf() ==> final(self).wf(),
    {
        self.stability = Stability {
            frames: 0,
            anchor_gain: single::ZERO,
            anchor_level: single::ZERO,
        };
    }

    fn finish_measurement(&mut self)
        ensures
            final(self)@ == (Matcher { state: finished(old(self)@), ..old(self)@ }),
            old(self).wf() ==> final(self).wf(),
    {
        self.state = if single::less_or_equal(self.measurement_level, SILENCE_PEAK_LINEAR) {
            MatchState::NoSignal
        } else {
            MatchState::Locked
        };
    }

    /// Take the input samples of one frame.
    pub fn observe_input(&mut self, input_left: u32, input_right: u32) -> (result: FrameInput)
        requires
            old(self).wf(),
        ensures
            final(self).wf(),
            result.left == (if single::finite(input_left) {
                input_left
            } else {
                single::ZERO
            }),
            result.right == (if single::finite(input_right) {
                input_right
            } else {
                single::ZERO
            }),
            result.peak == single::larger(
                single::absolute(result.left),
                single::absolute(result.right),
            ),
            single::is_level(result.peak),
            final(self)@ == heard(old(self)@, result.peak),
            result.measures_rms == window_open(final(self)@, result.peak),
    {
        let left: u32 = single::finite_or_zero(input_left);
        let right: u32 = single::finite_or_zero(input_right);
        let peak: u32 = single::max(single::abs(left), single::abs(right));
        self.block.input = single::max(self.block.input, peak);
        let mut measures_rms: bool = false;
        if self.state == MatchState::Measuring && self.rms_mode {
            if is_usable(peak) {
                if self.rms_quiet_frames >= self.timing.silence_frames {
                    self.start_match_transition();
                }
                self.rms_quiet_frames = 0;
            } else {
                self.rms_quiet_frames = self.rms_quiet_frames.saturating_add(1);
            }
            let observed_signal: bool = is_usable(self.peaks.maximum()) || is_usable(peak);
            measures_rms = self.rms_quiet_frames < self.timing.silence_frames && observed_signal;
        }
        FrameInput { left, right, peak, measures_rms }
    }

    /// Take the squares of a frame into the RMS window over the input.
    pub fn record_input(&mut self, squares: (u64, u64), sum: (u64, u64), compensation: (u64, u64))
        requires
            old(self).wf(),
        ensures
            final(self).wf(),
            final(self)@ == (Matcher {
                input: old(self)@.input.updated(squares, sum, compensation),
                rms_frames: counted(old(self)@.rms_frames),
                ..old(self)@
            }),
    {
        self.input_rms.update(squares, sum, compensation);
        self.rms_frames = self.rms_frames.saturating_add(1);
    }

    /// Note the levels of a frame: its peak, and the level of the RMS window
    /// where the frame went into it.
    pub fn observe_measurement(&mut self, peak: u32, measured: bool, level: u32) -> (result:
        Observation)
        requires
            old(self).wf(),
            single::is_level(peak),
        ensures
            final(self).wf(),
            old(self)@.state != MatchState::Measuring ==> final(self)@ == old(self)@
                && !result.evaluate && !result.first_complete_rms,
            old(self)@.state == MatchState::Measuring ==> {
                &&& final(self)@ == evidenced(old(self)@, peak, measured, level)
                &&& result.evaluate == (peak > highest(old(self)@.peaks) || usable(
                    candidate_level(final(self)@),
                ))
                &&& result.first_complete_rms == (window_counts(old(self)@, measured) && usable(
                    level,
                ) && !old(self)@.candidate_seen)
            },
    {
        if self.state != MatchState::Measuring {
            return Observation { evaluate: false, first_complete_rms: false };
        }
        let new_peak: bool = self.peaks.observe(peak);
        let mut first_complete_rms: bool = false;
        if self.rms_mode && self.rms_frames > 0 && self.input_rms.complete() && measured {
            if level < single::INFINITY {
                self.levels.observe(level);
            }
            if is_usable(level) && !self.rms_candidate_seen {
                self.rms_candidate_seen = true;
                first_complete_rms = true;
            }
        }
        assert(self@ =~= evidenced(old(self)@, peak, measured, level));
        Observation {
            evaluate: new_peak || is_usable(self.measurement_candidate_level()),
            first_complete_rms,
        }
    }

    /// The level that a candidate gain is taken from.
    pub fn measurement_candidate_level(&self) -> (result: u32)
        requires
            self.wf(),
        ensures
            result == candidate_level(self@),
    {
        if self.measurement_rms_mode && self.input_rms.complete() && is_usable(
            self.levels.maximum(),
        ) {
            self.levels.maximum()
        } else {
            self.peaks.maximum()
        }
    }

    /// The highest peak of the recent past.
    pub fn rolling_measurement_peak(&self) -> (result: u32)
        requires
            self.wf(),
        ensures
            result == highest(self@.peaks),
    {
        self.peaks.maximum()
    }

    /// The strongest complete RMS window of the recent past.
    pub fn rolling_measurement_rms(&self) -> (result: u32)
        requires
            self.wf(),
        ensures
            result == highest(self@.levels),
    {
        self.levels.maximum()
    }

    /// The gain for a measured level, where the caller divided the target peak
    /// by the level and full scale by the peak.
    pub fn gain_for_measurement(
        &self,
        level: u32,
        peak: u32,
        requested_gain: u32,
        headroom_gain: u32,
    ) -> (result: u32)
        ensures
            result == bounded_gain(self@, level, peak, requested_gain, headroom_gain),
    {
        if !single::is_finite(level) || !is_usable(level) {
            return single::ZERO;
        }
        let limit: u32 = if self.measurement_rms_mode && is_usable(peak) {
            headroom_gain
        } else {
            GAIN_MAX_LINEAR
        };
        single::clamp(single::min(requested_gain, limit), GAIN_MIN_LINEAR, GAIN_MAX_LINEAR)
    }

    /// Decide whether the evidence takes effect on this frame.
    pub fn consider_measurement_candidate(
        &mut self,
        input_peak: u32,
        first_complete_rms: bool,
        readings: CandidateReadings,
    ) -> (result: Option<Candidate>)
        requires
            old(self).wf(),
        ensures
            final(self).wf(),
            final(self)@ == decided(old(self)@, input_peak, first_complete_rms, readings),
            result == (if takes_effect(old(self)@, input_peak, first_complete_rms, readings) {
                Some(candidate_of(old(self)@, readings))
            } else {
                None
            }),
    {
        let level: u32 = self.measurement_candidate_level();
        if single::less_or_equal(level, SILENCE_PEAK_LINEAR) {
            self.reset_measurement_stability();
            return None;
        }
        let gain: u32 = self.gain_for_measurement(
            level,
            self.peaks.maximum(),
            readings.requested_gain,
            readings.headroom_gain,
        );
        if !single::is_finite(gain) || single::less_or_equal(gain, single::ZERO) {
            self.reset_measurement_stability();
            return None;
        }
        let candidate = Candidate { level, gain };
        if self.force_measurement_update || first_complete_rms {
            self.force_measurement_update = false;
            self.reset_measurement_stability();
            return Some(candidate);
        }
        // Louder evidence asks for less gain and takes effect at once. Only a
        // quieter candidate has to settle, so that a decaying tail cannot raise
        // the gain sample by sample.

        if single::less(gain, self.gain.linear) {
            self.reset_measurement_stability();
            return Some(candidate);
        }
        if single::less_or_equal(gain, self.gain.linear) {
            self.reset_measurement_stability();
            return None;
        }
        let anchor: Stability = self.stability;
        if single::less_or_equal(anchor.anchor_gain, single::ZERO) || !single::is_finite(
            anchor.anchor_gain,
        ) || single::less_or_equal(anchor.anchor_level, SILENCE_PEAK_LINEAR)
            || !single::is_finite(anchor.anchor_level) || single::less(gain, readings.gain_low)
            || single::less(readings.gain_high, gain) || single::less(level, readings.level_low)
            || single::less(readings.level_high, level) {
            self.stability = Stability { frames: 0, anchor_gain: gain, anchor_level: level };
        } else {
            self.stability.frames = anchor.frames.saturating_add(1);
        }
        if self.stability.frames >= self.timing.stability_frames && is_usable(input_peak) {
            self.reset_measurement_stability();
            return Some(candidate);
        }
        None
    }

    /// Take a gain over, where `gain_db` is the candidate's gain in decibels and
    /// `gain_double` the factor for [`published_db`] of it.
    pub fn publish_measurement_gain(
        &mut self,
        params: &mut GainSnapParams,
        candidate: Candidate,
        gain_db: u32,
        gain_double: u64,
    )
        requires
            old(self).wf(),
        ensures
            final(self).wf(),
            final(self)@ == published(old(self)@, candidate, gain_db, gain_double),
            final(params)@ == with_param(
                old(params)@,
                PARAM_LOCKED_GAIN_DB,
                published_db(gain_db),
            ),
    {
        self.measurement_level = candidate.level;
        self.gain.linear = candidate.gain;
        self.gain.locked_db = publishable_gain_db(gain_db);
        self.gain.target = gain_double;
        params.set_param(PARAM_LOCKED_GAIN_DB, self.gain.locked_db);
    }

    /// Close a measured frame.
    pub fn advance_measurement_history(&mut self)
        requires
            old(self).wf(),
        ensures
            final(self).wf(),
            final(self)@ == advanced(old(self)@),
    {
        if self.state != MatchState::Measuring {
            return ;
        }
        if self.bucket_position + 1 < self.timing.bucket_frames {
            self.bucket_position = self.bucket_position + 1;
            return ;
        }
        self.bucket_position = 0;
        self.peaks.rotate();
        self.levels.rotate();
    }

    /// The share of the remaining way that the gain covers on this frame: a
    /// smaller one on the way up than on the way down.
    pub fn gain_coefficient(&self) -> (result: u64)
        ensures
            result == (if double::below(self@.gain.current, self@.gain.target) {
                self@.timing.increase_coefficient
            } else {
                self@.timing.reduction_coefficient
            }),
    {
        if double::less(self.gain.current, self.gain.target) {
            self.timing.increase_coefficient
        } else {
            self.timing.reduction_coefficient
        }
    }

    /// Move the smoothed gain on.
    pub fn settle_gain(&mut self, next: u64)
        requires
            old(self).wf(),
        ensures
            final(self).wf(),
            final(self)@ == settled(old(self)@, next),
    {
        self.gain.current = next;
        if !double::is_finite(next) {
            self.gain.current = double::ONE;
            self.gain.target = double::ONE;
            self.gain.locked_db = single::ZERO;
        }
    }

    /// Move the fade up on, where `stepped` is its position plus its step.
    /// Finishing Match early keeps the fade.
    pub fn advance_fade(&mut self, stepped: u32) -> (result: FrameFade)
        requires
            old(self).wf(),
        ensures
            final(self).wf(),
            result == faded(old(self)@),
            final(self)@ == fade_advanced(old(self)@, stepped),
    {
        let position: u32 = self.fade.in_position;
        let fading_out: bool = single::less(self.fade.out_position, single::ONE);
        if !fading_out && (self.state != MatchState::Measuring || is_usable(self.peaks.maximum())) {
            self.fade.in_position = single::min(stepped, single::ONE);
        }
        let ceiling: u32 = if !self.measurement_rms_mode && (self.state == MatchState::Measuring
            || single::less(position, single::ONE)) {
            self.target.peak
        } else {
            single::ONE
        };
        FrameFade { position, fading_out, ceiling }
    }

    /// Move the peak guard on: down to what the frame requires at once, up no
    /// faster than it recovers.
    pub fn settle_guard(&mut self, required: u64, recovered: u64)
        requires
            old(self).wf(),
        ensures
            final(self).wf(),
            final(self)@ == (Matcher {
                gain: Gain { guard: double::smaller(required, recovered), ..old(self)@.gain },
                ..old(self)@
            }),
    {
        self.gain.guard = double::min(required, recovered);
    }

    /// Bound the gain of the outgoing signal by what its ceiling allows. It only
    /// ever goes down.
    pub fn hold_fade_out_gain(&mut self, peak: u32, quotient: u32)
        requires
            old(self).wf(),
        ensures
            final(self).wf(),
            final(self)@ == (Matcher {
                fade: Fade {
                    out_gain: if single::below(single::ZERO, peak) {
                        single::smaller(old(self)@.fade.out_gain, quotient)
                    } else {
                        old(self)@.fade.out_gain
                    },
                    ..old(self)@.fade
                },
                ..old(self)@
            }),
    {
        if single::less(single::ZERO, peak) {
            self.fade.out_gain = single::min(self.fade.out_gain, quotient);
        }
    }

    /// Close an outgoing frame, where `stepped` is the position of the fade down
    /// plus its step.
    pub fn finish_fade_out(&mut self, stepped: u32, audible_gain: u32, audible_ceiling: u32)
        requires
            old(self).wf(),
        ensures
            final(self).wf(),
            final(self)@ == (Matcher {
                fade: Fade {
                    out_position: single::smaller(stepped, single::ONE),
                    ..old(self)@.fade
                },
                last: LastOutput {
                    gain: audible_gain,
                    ceiling: audible_ceiling,
                    ..old(self)@.last
                },
                ..old(self)@
            }),
    {
        self.fade.out_position = single::min(stepped, single::ONE);
        self.last.gain = audible_gain;
        self.last.ceiling = audible_ceiling;
    }

    /// Close a frame of the matched signal.
    pub fn finish_fade_in(&mut self, audible_gain: u32, audible_ceiling: u32)
        requires
            old(self).wf(),
        ensures
            final(self).wf(),
            final(self)@ == (Matcher {
                last: LastOutput {
                    gain: audible_gain,
                    ceiling: audible_ceiling,
                    ..old(self)@.last
                },
                ..old(self)@
            }),
    {
        self.last.gain = audible_gain;
        self.last.ceiling = audible_ceiling;
    }

    /// Meter the output samples of one frame.
    pub fn record_output(
        &mut self,
        left: u32,
        right: u32,
        squares: (u64, u64),
        sum: (u64, u64),
        compensation: (u64, u64),
    )
        requires
            old(self).wf(),
        ensures
            final(self).wf(),
            ({
                let peak = single::larger(single::absolute(left), single::absolute(right));
                final(self)@ == (Matcher {
                    output: old(self)@.output.updated(squares, sum, compensation),
                    last: LastOutput { peak, ..old(self)@.last },
                    block: BlockPeaks {
                        output: single::larger(old(self)@.block.output, peak),
                        ..old(self)@.block
                    },
                    ..old(self)@
                })
            }),
    {
        let peak: u32 = single::max(single::abs(left), single::abs(right));
        self.output_rms.update(squares, sum, compensation);
        self.last.peak = peak;
        self.block.output = single::max(self.block.output, peak);
    }

    /// The status of this block, where the caller took the logarithms of the
    /// block peaks and of the output level.
    pub fn report(
        &self,
        input_decibels: u32,
        output_decibels: u32,
        output_level: u32,
        output_level_decibels: u32,
    ) -> (result: EngineReport)
        ensures
            result == (EngineReport {
                input_peak_db: level_in_db(self@.block.input, input_decibels),
                output_peak_db: level_in_db(self@.block.output, output_decibels),
                output_rms_db: level_in_db(output_level, output_level_decibels),
                progress: if self@.state == MatchState::Measuring {
                    single::ZERO
                } else {
                    single::ONE
                },
                state: self@.state,
                locked_gain_db: self@.gain.locked_db,
            }),
            result.progress == 0 <==> self@.state == MatchState::Measuring,
            result.progress == 0 || result.progress == 0x3f80_0000,
            !single::below(0x3586_37bd, self@.block.input) ==> result.input_peak_db == 0xc2f0_0000,
            !single::below(0x3586_37bd, self@.block.output) ==> result.output_peak_db
                == 0xc2f0_0000,
            !single::below(0x3586_37bd, output_level) ==> result.output_rms_db == 0xc2f0_0000,
    {
        let progress: u32 = if self.state == MatchState::Measuring {
            single::ZERO
        } else {
            single::ONE
        };
        EngineReport {
            input_peak_db: linear_to_db(self.block.input, input_decibels),
            output_peak_db: linear_to_db(self.block.output, output_decibels),
            output_rms_db: linear_to_db(output_level, output_level_decibels),
            progress,
            state: self.state,
            locked_gain_db: self.gain.locked_db,
        }
    }

    /// What the sample rate fixed.
    pub fn timing(&self) -> (result: Timing)
        ensures
            result == self@.timing,
    {
        self.timing
    }

    /// Target of the current measurement.
    pub fn target(&self) -> (result: Target)
        ensures
            result == self@.target,
    {
        self.target
    }

    /// The gain and its way to the output.
    pub fn gain(&self) -> (result: Gain)
        ensures
            result == self@.gain,
    {
        self.gain
    }

    /// Where the fades stand.
    pub fn fade(&self) -> (result: Fade)
        ensures
            result == self@.fade,
    {
        self.fade
    }

    /// How long a quieter candidate has stayed put.
    pub fn stability(&self) -> (result: Stability)
        ensures
            result == self@.stability,
    {
        self.stability
    }

    /// Peaks of the current block.
    pub fn block_peaks(&self) -> (result: BlockPeaks)
        ensures
            result == self@.block,
    {
        self.block
    }

    /// Level that led to the current gain.
    pub fn measurement_level(&self) -> (result: u32)
        ensures
            result == self@.measurement_level,
    {
        self.measurement_level
    }

    /// Matcher state.
    pub fn state(&self) -> (result: MatchState)
        ensures
            result == self@.state,
    {
        self.state
    }

    /// RMS window over the input.
    pub fn input_rms(&self) -> (result: &RmsDetector)
        requires
            self.wf(),
        ensures
            result.wf(),
            result@ == self@.input,
    {
        &self.input_rms
    }

    /// RMS window over the output.
    pub fn output_rms(&self) -> (result: &RmsDetector)
        requires
            self.wf(),
        ensures
            result.wf(),
            result@ == self@.output,
    {
        &self.output_rms
    }
}

/// The times and the limits of the matcher: a complete RMS window of 0.3 s,
/// buckets of 0.1 s, a settling time of 0.3 s within half a decibel, a long
/// silence of 2 s, fades of 0.3 s up and 0.01 s down, a gain that falls in 0.01 s
/// and rises in 0.1 s, and a guard that recovers in 0.1 s.
pub proof fn times_and_limits()
    ensures
        RMS_AVERAGING_SECONDS == 0x3e99_999a,
        MATCH_HISTORY_BUCKET_SECONDS == 0x3dcc_cccd,
        MATCH_ADAPTATION_SETTLE_SECONDS == 0x3e99_999a,
        MATCH_ADAPTATION_STABILITY_RATIO == 0x3f87_95a0,
        RMS_SILENCE_SECONDS == 0x4000_0000,
        MATCH_FADE_SECONDS == 0x3e99_999a,
        MATCH_FADE_OUT_SECONDS == 0x3c23_d70a,
        GAIN_SMOOTHING_SECONDS == 0x3c23_d70a,
        GAIN_INCREASE_SECONDS == 0x3dcc_cccd,
        PEAK_GUARD_RELEASE_SECONDS == 0x3dcc_cccd,
        MAX_SUPPORTED_SAMPLE_RATE == 0x48bb_8000,
        FALLBACK_SAMPLE_RATE == 0x473b_8000,
{
}

} // verus!
