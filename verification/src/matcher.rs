//! The model of the matcher: what an engine holds, and what every step makes of
//! it.
use vstd::prelude::*;

use crate::detector::Window;
use crate::double;
use crate::history::{
    buckets_stay_sound, highest, highest_is_the_maximum, noted, rotated, silent_buckets,
    sound_buckets, MATCH_HISTORY_BUCKET_COUNT,
};
use crate::params::{gain_in_range, Controls};
use crate::single;
use crate::status::{MatchState, LOUDEST_DB, SILENT_DB};

verus! {

/// A peak at or below this level is no usable signal: 0.000001.
pub const SILENCE_PEAK_LINEAR: u32 = 0x3586_37bd;

/// Lowest gain that a measurement leads to: -24 dB.
pub const GAIN_MIN_LINEAR: u32 = 0x3d81_3856;

/// Highest gain that a measurement leads to: +24 dB.
pub const GAIN_MAX_LINEAR: u32 = 0x417d_953a;

/// [`GAIN_MIN_LINEAR`] in decibels.
pub const CORRECTION_MIN_DB: u32 = 0xc1c0_0000;

/// [`GAIN_MAX_LINEAR`] in decibels.
pub const CORRECTION_MAX_DB: u32 = 0x41c0_0000;

/// Smallest difference of stored gains that is followed: 0.0001 dB.
pub const GAIN_STEP_DB: u32 = 0x38d1_b717;

/// What the sample rate fixes for the life of an engine.
#[derive(Clone, Copy, Debug, PartialEq, Eq, Structural)]
pub struct Timing {
    /// Frames of silence after which a new signal gets a fresh start.
    pub silence_frames: u64,
    /// Frames in one history bucket.
    pub bucket_frames: u64,
    /// Frames for which a quieter level has to stay put.
    pub stability_frames: u64,
    /// Share of the remaining way that a gain reduction covers per frame.
    pub reduction_coefficient: u64,
    /// Share of the remaining way that a gain increase covers per frame.
    pub increase_coefficient: u64,
    /// Share of the remaining way that the peak guard recovers per frame.
    pub release_coefficient: u64,
    /// Step of the fade up per frame.
    pub fade_in_step: u32,
    /// Step of the fade down per frame.
    pub fade_out_step: u32,
}

/// How long a quieter candidate has stayed near its anchor.
#[derive(Clone, Copy, Debug, PartialEq, Eq, Structural)]
pub struct Stability {
    /// Frames since the anchor was set.
    pub frames: u64,
    /// Gain of the anchor.
    pub anchor_gain: u32,
    /// Level of the anchor.
    pub anchor_level: u32,
}

/// Where the fades around a start of Match stand.
#[derive(Clone, Copy, Debug, PartialEq, Eq, Structural)]
pub struct Fade {
    /// Position of the fade up, from 0.0 to 1.0.
    pub in_position: u32,
    /// Position of the fade down, from 0.0 to 1.0.
    pub out_position: u32,
    /// Gain of the signal that is faded down.
    pub out_gain: u32,
    /// Ceiling of the signal that is faded down.
    pub out_ceiling: u32,
}

/// What was last heard.
#[derive(Clone, Copy, Debug, PartialEq, Eq, Structural)]
pub struct LastOutput {
    /// Gain that was audible.
    pub gain: u32,
    /// Ceiling that was audible.
    pub ceiling: u32,
    /// Peak of the last output frame.
    pub peak: u32,
}

/// Highest peaks of the current block.
#[derive(Clone, Copy, Debug, PartialEq, Eq, Structural)]
pub struct BlockPeaks {
    /// Highest input peak.
    pub input: u32,
    /// Highest output peak.
    pub output: u32,
}

/// Target of the current measurement.
#[derive(Clone, Copy, Debug, PartialEq, Eq, Structural)]
pub struct Target {
    /// Target level in dBFS.
    pub db: u32,
    /// The same level as a linear peak.
    pub peak: u32,
}

/// The gain and its way to the output.
#[derive(Clone, Copy, Debug, PartialEq, Eq, Structural)]
pub struct Gain {
    /// Calculated gain in dB.
    pub locked_db: u32,
    /// Calculated gain as a factor.
    pub linear: u32,
    /// Factor that the smoothing moves towards.
    pub target: u64,
    /// Smoothed factor.
    pub current: u64,
    /// Attenuation of the peak guard.
    pub guard: u64,
}

/// The model of an engine.
#[verifier::ext_equal]
pub struct Matcher {
    /// What the sample rate fixes.
    pub timing: Timing,
    /// Selected mode.
    pub rms_mode: bool,
    /// Mode in which the current measurement started.
    pub measurement_rms_mode: bool,
    /// Frames that went into the RMS window.
    pub rms_frames: u64,
    /// Frames of silence in a row.
    pub quiet_frames: u64,
    /// RMS window over the input.
    pub input: Window,
    /// RMS window over the output.
    pub output: Window,
    /// Peaks of the recent past, by bucket.
    pub peaks: Seq<u32>,
    /// RMS levels of the recent past, by bucket.
    pub levels: Seq<u32>,
    /// Frames in the newest bucket.
    pub bucket_position: u64,
    /// Level that led to the current gain.
    pub measurement_level: u32,
    /// How long a quieter candidate has stayed put.
    pub stability: Stability,
    /// Whether a complete RMS window was heard.
    pub candidate_seen: bool,
    /// Whether the next candidate takes effect at once.
    pub force_update: bool,
    /// The fades.
    pub fade: Fade,
    /// What was last heard.
    pub last: LastOutput,
    /// Peaks of the current block.
    pub block: BlockPeaks,
    /// Target of the measurement.
    pub target: Target,
    /// The gain.
    pub gain: Gain,
    /// Whether Match was requested.
    pub requested: bool,
    /// Requests for a fresh measurement that were followed.
    pub restart_generation: u32,
    /// Matcher state.
    pub state: MatchState,
}

/// Numbers that the caller takes from the controls before a synchronization.
#[derive(Clone, Copy, Debug, PartialEq, Eq, Structural)]
pub struct ControlReadings {
    /// Distance between the selected target level and the measured one.
    pub target_distance: u32,
    /// Selected target level as a linear peak.
    pub target_peak: u32,
    /// Distance between the stored gain and the calculated one.
    pub gain_distance: u32,
    /// Stored gain as a factor.
    pub gain_linear: u32,
    /// Stored gain as a factor, in double precision.
    pub gain_double: u64,
}

/// Numbers that the caller takes from the evidence before a decision.
#[derive(Clone, Copy, Debug, PartialEq, Eq, Structural)]
pub struct CandidateReadings {
    /// Target peak divided by the candidate level.
    pub requested_gain: u32,
    /// Full scale divided by the highest peak.
    pub headroom_gain: u32,
    /// Anchor gain divided by the stability ratio.
    pub gain_low: u32,
    /// Anchor gain multiplied by the stability ratio.
    pub gain_high: u32,
    /// Anchor level divided by the stability ratio.
    pub level_low: u32,
    /// Anchor level multiplied by the stability ratio.
    pub level_high: u32,
}

/// A gain that a measurement leads to.
#[derive(Clone, Copy, Debug, PartialEq, Eq, Structural)]
pub struct Candidate {
    /// Level that was measured.
    pub level: u32,
    /// Gain factor for it.
    pub gain: u32,
}

/// Input samples of one frame, free of what is not finite.
#[derive(Clone, Copy, Debug, PartialEq, Eq, Structural)]
pub struct FrameInput {
    /// Left sample.
    pub left: u32,
    /// Right sample.
    pub right: u32,
    /// Higher of the two absolute values.
    pub peak: u32,
    /// Whether the frame goes into the RMS window.
    pub measures_rms: bool,
}

/// What a measured frame asks for.
#[derive(Clone, Copy, Debug, PartialEq, Eq, Structural)]
pub struct Observation {
    /// Whether the evidence is to be evaluated.
    pub evaluate: bool,
    /// Whether this is the first complete RMS window of the measurement.
    pub first_complete_rms: bool,
}

/// How the fades apply to one frame.
#[derive(Clone, Copy, Debug, PartialEq, Eq, Structural)]
pub struct FrameFade {
    /// Position of the fade up at this frame.
    pub position: u32,
    /// Whether the outgoing signal is still fading down.
    pub fading_out: bool,
    /// Ceiling of the matched signal.
    pub ceiling: u32,
}

/// Status of one audio block.
#[derive(Clone, Copy, Debug, PartialEq, Eq, Structural)]
pub struct EngineReport {
    /// Highest finite input sample in dBFS.
    pub input_peak_db: u32,
    /// Highest output sample in dBFS.
    pub output_peak_db: u32,
    /// Output RMS of the louder channel in dBFS.
    pub output_rms_db: u32,
    /// 0.0 while a measurement is open, 1.0 otherwise.
    pub progress: u32,
    /// Matcher state.
    pub state: MatchState,
    /// Calculated gain in dB.
    pub locked_gain_db: u32,
}

/// Whether a level is a usable signal.
pub open spec fn usable(level: u32) -> bool {
    single::below(SILENCE_PEAK_LINEAR, level)
}

/// One more frame, up to the largest count.
pub open spec fn counted(frames: u64) -> u64 {
    if frames < u64::MAX {
        (frames + 1) as u64
    } else {
        frames
    }
}

/// No quieter candidate is waiting.
pub open spec fn unsettled() -> Stability {
    Stability { frames: 0, anchor_gain: single::ZERO, anchor_level: single::ZERO }
}

/// A fresh measurement: no evidence, and the fades set so that what is heard
/// now goes down before anything comes up.
pub open spec fn restarted(m: Matcher) -> Matcher {
    Matcher {
        measurement_rms_mode: m.rms_mode,
        input: m.input.emptied(),
        rms_frames: 0,
        quiet_frames: 0,
        measurement_level: single::ZERO,
        peaks: silent_buckets(),
        levels: silent_buckets(),
        bucket_position: 0,
        stability: unsettled(),
        candidate_seen: false,
        force_update: true,
        fade: Fade {
            in_position: single::ZERO,
            out_position: if usable(m.last.peak) {
                single::ZERO
            } else {
                single::ONE
            },
            out_gain: m.last.gain,
            out_ceiling: m.last.ceiling,
        },
        ..m
    }
}

/// The state in which a measurement ends.
pub open spec fn finished(m: Matcher) -> MatchState {
    if single::at_most(m.measurement_level, SILENCE_PEAK_LINEAR) {
        MatchState::NoSignal
    } else {
        MatchState::Locked
    }
}

/// Whether an open measurement has to start over.
pub open spec fn starts_over(m: Matcher, controls: Controls, readings: ControlReadings) -> bool {
    single::below(single::EPSILON, readings.target_distance) || m.restart_generation
        != controls.restart_generation
}

/// The engine after Match was followed.
pub open spec fn match_followed(
    m: Matcher,
    controls: Controls,
    readings: ControlReadings,
) -> Matcher {
    let selected = Matcher {
        rms_mode: controls.rms_mode,
        restart_generation: controls.restart_generation,
        ..m
    };
    let target = Target { db: controls.target_db, peak: readings.target_peak };
    if !controls.match_requested {
        Matcher {
            requested: false,
            state: if m.requested && m.state == MatchState::Measuring {
                finished(m)
            } else {
                m.state
            },
            ..selected
        }
    } else if !m.requested || m.rms_mode != controls.rms_mode {
        restarted(Matcher { requested: true, state: MatchState::Measuring, target, ..selected })
    } else if m.state == MatchState::Measuring && starts_over(m, controls, readings) {
        restarted(Matcher { target, ..selected })
    } else {
        selected
    }
}

/// The engine after it followed the controls. A stored gain is taken over only
/// while nothing is measured, and not at the moment a measurement ends.
pub open spec fn synchronized(
    m: Matcher,
    controls: Controls,
    readings: ControlReadings,
) -> Matcher {
    let followed = match_followed(m, controls, readings);
    let ended = !controls.match_requested && m.requested && m.state == MatchState::Measuring;
    if !ended && followed.state != MatchState::Measuring && single::below(
        GAIN_STEP_DB,
        readings.gain_distance,
    ) {
        Matcher {
            gain: Gain {
                locked_db: controls.locked_gain_db,
                linear: readings.gain_linear,
                target: readings.gain_double,
                ..followed.gain
            },
            ..followed
        }
    } else {
        followed
    }
}

/// The engine after a host processing boundary.
pub open spec fn cleared(m: Matcher, controls: Controls, readings: ControlReadings) -> Matcher {
    Matcher {
        timing: m.timing,
        rms_mode: controls.rms_mode,
        measurement_rms_mode: controls.rms_mode,
        rms_frames: 0,
        quiet_frames: 0,
        input: m.input.emptied(),
        output: m.output.emptied(),
        peaks: silent_buckets(),
        levels: silent_buckets(),
        bucket_position: 0,
        measurement_level: single::ZERO,
        stability: unsettled(),
        candidate_seen: false,
        force_update: m.force_update,
        fade: Fade {
            in_position: single::ONE,
            out_position: single::ONE,
            out_gain: single::ZERO,
            out_ceiling: single::ONE,
        },
        last: LastOutput {
            gain: readings.gain_linear,
            ceiling: single::ONE,
            peak: single::ZERO,
        },
        block: BlockPeaks { input: single::ZERO, output: single::ZERO },
        target: Target { db: controls.target_db, peak: readings.target_peak },
        gain: Gain {
            locked_db: controls.locked_gain_db,
            linear: readings.gain_linear,
            target: readings.gain_double,
            current: readings.gain_double,
            guard: double::ONE,
        },
        requested: false,
        restart_generation: controls.restart_generation,
        state: MatchState::Ready,
    }
}

/// The engine after it heard the peak of an input frame: in RMS mode, silence
/// is counted, and a signal after a long silence starts the measurement over.
pub open spec fn heard(m: Matcher, peak: u32) -> Matcher {
    let metered = Matcher {
        block: BlockPeaks { input: single::larger(m.block.input, peak), ..m.block },
        ..m
    };
    if m.state != MatchState::Measuring || !m.rms_mode {
        metered
    } else if !usable(peak) {
        Matcher { quiet_frames: counted(m.quiet_frames), ..metered }
    } else if m.quiet_frames >= m.timing.silence_frames {
        restarted(metered)
    } else {
        Matcher { quiet_frames: 0, ..metered }
    }
}

/// Whether a frame goes into the RMS window, given the engine that heard it:
/// from the first signal on, until a long silence.
pub open spec fn window_open(m: Matcher, peak: u32) -> bool {
    &&& m.state == MatchState::Measuring
    &&& m.rms_mode
    &&& m.quiet_frames < m.timing.silence_frames
    &&& usable(highest(m.peaks)) || usable(peak)
}

/// The level that a candidate gain is taken from: the strongest complete RMS
/// window where the measurement has one, else the highest peak.
pub open spec fn candidate_level(m: Matcher) -> u32 {
    if m.measurement_rms_mode && m.input.complete() && usable(highest(m.levels)) {
        highest(m.levels)
    } else {
        highest(m.peaks)
    }
}

/// Whether a frame brings a complete RMS window.
pub open spec fn window_counts(m: Matcher, measured: bool) -> bool {
    m.rms_mode && m.rms_frames > 0 && m.input.complete() && measured
}

/// The engine after it noted the levels of a frame.
pub open spec fn evidenced(m: Matcher, peak: u32, measured: bool, level: u32) -> Matcher {
    let counts = window_counts(m, measured);
    Matcher {
        peaks: noted(m.peaks, peak),
        levels: if counts && single::is_level(level) {
            noted(m.levels, level)
        } else {
            m.levels
        },
        candidate_seen: m.candidate_seen || (counts && usable(level)),
        ..m
    }
}

/// The gain for a measured level: the requested gain, no more than the headroom
/// in RMS mode, inside the range of corrections.
pub open spec fn bounded_gain(
    m: Matcher,
    level: u32,
    peak: u32,
    requested_gain: u32,
    headroom_gain: u32,
) -> u32 {
    if !single::finite(level) || !usable(level) {
        single::ZERO
    } else {
        let limit = if m.measurement_rms_mode && usable(peak) {
            headroom_gain
        } else {
            GAIN_MAX_LINEAR
        };
        single::clamped(single::smaller(requested_gain, limit), GAIN_MIN_LINEAR, GAIN_MAX_LINEAR)
    }
}

/// Whether a quieter candidate has left the neighbourhood of its anchor.
pub open spec fn moved(s: Stability, candidate: Candidate, readings: CandidateReadings) -> bool {
    ||| single::at_most(s.anchor_gain, single::ZERO)
    ||| !single::finite(s.anchor_gain)
    ||| single::at_most(s.anchor_level, SILENCE_PEAK_LINEAR)
    ||| !single::finite(s.anchor_level)
    ||| single::below(candidate.gain, readings.gain_low)
    ||| single::below(readings.gain_high, candidate.gain)
    ||| single::below(candidate.level, readings.level_low)
    ||| single::below(readings.level_high, candidate.level)
}

/// How long a quieter candidate has stayed put, counting this frame.
pub open spec fn stayed(s: Stability, candidate: Candidate, readings: CandidateReadings) -> Stability {
    if moved(s, candidate, readings) {
        Stability { frames: 0, anchor_gain: candidate.gain, anchor_level: candidate.level }
    } else {
        Stability { frames: counted(s.frames), ..s }
    }
}

/// The candidate that the evidence leads to.
pub open spec fn candidate_of(m: Matcher, readings: CandidateReadings) -> Candidate {
    let level = candidate_level(m);
    Candidate {
        level,
        gain: bounded_gain(
            m,
            level,
            highest(m.peaks),
            readings.requested_gain,
            readings.headroom_gain,
        ),
    }
}

/// Whether the evidence leads to a gain at all.
pub open spec fn has_candidate(m: Matcher, readings: CandidateReadings) -> bool {
    let candidate = candidate_of(m, readings);
    &&& !single::at_most(candidate.level, SILENCE_PEAK_LINEAR)
    &&& single::finite(candidate.gain)
    &&& !single::at_most(candidate.gain, single::ZERO)
}

/// Whether the candidate takes effect on this frame: at once where the
/// measurement has just started or where it asks for less gain, and otherwise
/// only after it has stayed put for long enough and while there is a signal.
pub open spec fn takes_effect(
    m: Matcher,
    input_peak: u32,
    first_complete_rms: bool,
    readings: CandidateReadings,
) -> bool {
    let candidate = candidate_of(m, readings);
    &&& has_candidate(m, readings)
    &&& {
        ||| m.force_update
        ||| first_complete_rms
        ||| single::below(candidate.gain, m.gain.linear)
        ||| {
            &&& !single::at_most(candidate.gain, m.gain.linear)
            &&& stayed(m.stability, candidate, readings).frames >= m.timing.stability_frames
            &&& usable(input_peak)
        }
    }
}

/// The engine after a decision on the candidate.
pub open spec fn decided(
    m: Matcher,
    input_peak: u32,
    first_complete_rms: bool,
    readings: CandidateReadings,
) -> Matcher {
    let candidate = candidate_of(m, readings);
    let waits = has_candidate(m, readings) && !takes_effect(
        m,
        input_peak,
        first_complete_rms,
        readings,
    ) && !single::at_most(candidate.gain, m.gain.linear);
    Matcher {
        stability: if waits {
            stayed(m.stability, candidate, readings)
        } else {
            unsettled()
        },
        force_update: if has_candidate(m, readings) && (m.force_update || first_complete_rms) {
            false
        } else {
            m.force_update
        },
        ..m
    }
}

/// A calculated gain in decibels as it is published.
pub open spec fn published_db(gain_db: u32) -> u32 {
    gain_in_range(single::clamped(gain_db, CORRECTION_MIN_DB, CORRECTION_MAX_DB))
}

/// The engine after a candidate took effect.
pub open spec fn published(m: Matcher, candidate: Candidate, gain_db: u32, gain_double: u64) -> Matcher {
    Matcher {
        measurement_level: candidate.level,
        gain: Gain {
            linear: candidate.gain,
            locked_db: published_db(gain_db),
            target: gain_double,
            ..m.gain
        },
        ..m
    }
}

/// The engine after a measured frame: the newest bucket grows, or gives way.
pub open spec fn advanced(m: Matcher) -> Matcher {
    if m.state != MatchState::Measuring {
        m
    } else if m.bucket_position + 1 < m.timing.bucket_frames {
        Matcher { bucket_position: (m.bucket_position + 1) as u64, ..m }
    } else {
        Matcher { bucket_position: 0, peaks: rotated(m.peaks), levels: rotated(m.levels), ..m }
    }
}

/// The engine after its gain moved on; a gain that is not finite falls back to
/// unity.
pub open spec fn settled(m: Matcher, next: u64) -> Matcher {
    if double::finite(next) {
        Matcher { gain: Gain { current: next, ..m.gain }, ..m }
    } else {
        Matcher {
            gain: Gain {
                current: double::ONE,
                target: double::ONE,
                locked_db: single::ZERO,
                ..m.gain
            },
            ..m
        }
    }
}

/// How the fades apply to the current frame. In Peak mode the target bounds the
/// matched signal while Match measures or fades up; otherwise full scale does.
pub open spec fn faded(m: Matcher) -> FrameFade {
    FrameFade {
        position: m.fade.in_position,
        fading_out: single::below(m.fade.out_position, single::ONE),
        ceiling: if !m.measurement_rms_mode && (m.state == MatchState::Measuring || single::below(
            m.fade.in_position,
            single::ONE,
        )) {
            m.target.peak
        } else {
            single::ONE
        },
    }
}

/// The engine after the fade up moved on: not during the fade down, and not
/// before a measurement has heard a signal.
pub open spec fn fade_advanced(m: Matcher, stepped: u32) -> Matcher {
    if !faded(m).fading_out && (m.state != MatchState::Measuring || usable(highest(m.peaks))) {
        Matcher {
            fade: Fade { in_position: single::smaller(stepped, single::ONE), ..m.fade },
            ..m
        }
    } else {
        m
    }
}

/// The highest gain that keeps a peak under the ceiling.
pub open spec fn allowed(peak: u32, quotient: u32) -> u32 {
    if single::below(single::ZERO, peak) {
        quotient
    } else {
        single::LARGEST
    }
}

/// The pattern with the other sign.
pub open spec fn negated(bits: u32) -> u32 {
    if bits < single::SIGN {
        (bits + single::SIGN) as u32
    } else {
        (bits - single::SIGN) as u32
    }
}

/// The count, or 1 where it is 0.
pub open spec fn at_least_one(count: u64) -> u64 {
    if count == 0 {
        1
    } else {
        count
    }
}

/// A linear level in decibels, as [`crate::dsp::linear_to_db`] gives it.
pub open spec fn level_in_db(linear: u32, decibels: u32) -> u32 {
    if single::finite(linear) && usable(linear) {
        single::clamped(decibels, SILENT_DB, LOUDEST_DB)
    } else {
        SILENT_DB
    }
}

/// A new engine.
pub open spec fn initial(
    timing: Timing,
    window_frames: nat,
    locked_db: u32,
    gain_linear: u32,
    gain_double: u64,
    target: Target,
) -> Matcher {
    let window = Window {
        squares: Seq::empty(),
        capacity: window_frames,
        sum: (double::ZERO, double::ZERO),
        compensation: (double::ZERO, double::ZERO),
    };
    Matcher {
        timing,
        rms_mode: false,
        measurement_rms_mode: false,
        rms_frames: 0,
        quiet_frames: 0,
        input: window,
        output: window,
        peaks: silent_buckets(),
        levels: silent_buckets(),
        bucket_position: 0,
        measurement_level: single::ZERO,
        stability: unsettled(),
        candidate_seen: false,
        force_update: false,
        fade: Fade {
            in_position: single::ONE,
            out_position: single::ONE,
            out_gain: single::ZERO,
            out_ceiling: single::ONE,
        },
        last: LastOutput { gain: gain_linear, ceiling: single::ONE, peak: single::ZERO },
        block: BlockPeaks { input: single::ZERO, output: single::ZERO },
        target,
        gain: Gain {
            locked_db,
            linear: gain_linear,
            target: gain_double,
            current: gain_double,
            guard: double::ONE,
        },
        requested: false,
        restart_generation: 0,
        state: MatchState::Ready,
    }
}

/// Whether a measurement is open exactly while Match is followed.
pub open spec fn measures_on_request(m: Matcher) -> bool {
    m.requested == (m.state == MatchState::Measuring)
}

/// A measurement is open exactly while Match is followed: so it begins, and so
/// it stays, after controls were followed, after a processing boundary and after
/// a frame was heard.
pub proof fn measurement_is_open_on_request(
    m: Matcher,
    controls: Controls,
    readings: ControlReadings,
    peak: u32,
)
    requires
        measures_on_request(m),
    ensures
        measures_on_request(synchronized(m, controls, readings)),
        synchronized(m, controls, readings).requested == controls.match_requested,
        measures_on_request(cleared(m, controls, readings)),
        measures_on_request(heard(m, peak)),
{
}

/// Switching Match off closes the measurement and keeps the gain that it led
/// to, whatever the store holds.
pub proof fn match_off_holds_the_gain(m: Matcher, controls: Controls, readings: ControlReadings)
    requires
        m.requested,
        m.state == MatchState::Measuring,
        !controls.match_requested,
    ensures
        ({
            let held = synchronized(m, controls, readings);
            &&& held.gain == m.gain
            &&& held.fade == m.fade
            &&& held.state == finished(m)
            &&& !held.requested
        }),
{
}

/// A gain in the store is not followed while a measurement is open.
pub proof fn measuring_ignores_the_stored_gain(
    m: Matcher,
    controls: Controls,
    readings: ControlReadings,
)
    requires
        synchronized(m, controls, readings).state == MatchState::Measuring,
    ensures
        synchronized(m, controls, readings).gain == m.gain,
{
}

/// Controls that stay as they are change nothing: the engine follows a switch of
/// Match once.
pub proof fn following_the_same_controls_again_changes_nothing(
    m: Matcher,
    controls: Controls,
    readings: ControlReadings,
    again: ControlReadings,
)
    requires
        !single::below(single::EPSILON, again.target_distance),
        !single::below(GAIN_STEP_DB, again.gain_distance),
        measures_on_request(m),
    ensures
        ({
            let once = synchronized(m, controls, readings);
            synchronized(once, controls, again) == once
        }),
{
}

/// While Match stays on, a change of mode, an edit of the target and a request
/// to start over each begin a fresh measurement towards the selected target.
pub proof fn edits_while_measuring_start_over(
    m: Matcher,
    controls: Controls,
    readings: ControlReadings,
)
    requires
        m.requested,
        m.state == MatchState::Measuring,
        controls.match_requested,
        m.rms_mode != controls.rms_mode || starts_over(m, controls, readings),
    ensures
        ({
            let fresh = synchronized(m, controls, readings);
            &&& fresh.state == MatchState::Measuring
            &&& fresh.measurement_rms_mode == controls.rms_mode
            &&& fresh.target == (Target { db: controls.target_db, peak: readings.target_peak })
            &&& fresh.force_update
            &&& highest(fresh.peaks) == single::ZERO
            &&& highest(fresh.levels) == single::ZERO
            &&& fresh.input.squares.len() == 0
        }),
{
    silence_has_no_candidate(m);
}

/// A fresh measurement holds no evidence, and starts its fade down from the gain
/// and the ceiling that were last heard.
pub proof fn starting_over_keeps_what_is_heard(m: Matcher)
    ensures
        ({
            let fresh = restarted(m);
            &&& fresh.fade.out_gain == m.last.gain
            &&& fresh.fade.out_ceiling == m.last.ceiling
            &&& fresh.gain == m.gain
            &&& usable(m.last.peak) ==> faded(fresh).fading_out
            &&& !usable(m.last.peak) ==> !faded(fresh).fading_out
            &&& candidate_level(fresh) == single::ZERO
            &&& fresh.state == MatchState::Measuring ==> forall|stepped: u32|
                fade_advanced(fresh, stepped) == fresh
        }),
{
    silence_has_no_candidate(m);
}

proof fn silence_has_no_candidate(m: Matcher)
    ensures
        highest(silent_buckets()) == single::ZERO,
{
    crate::history::highest_is_the_maximum(silent_buckets());
}

/// A measurement that led to no gain ends without a signal; one that did ends
/// with the gain locked.
pub proof fn measurements_end_by_what_they_heard(
    m: Matcher,
    input_peak: u32,
    first_complete_rms: bool,
    readings: CandidateReadings,
    gain_db: u32,
    gain_double: u64,
)
    ensures
        finished(restarted(m)) == MatchState::NoSignal,
        takes_effect(m, input_peak, first_complete_rms, readings) && single::finite(
            candidate_level(m),
        ) ==> finished(
            published(m, candidate_of(m, readings), gain_db, gain_double),
        ) == MatchState::Locked,
{
}

/// Every gain that evidence leads to is inside the range of corrections.
pub proof fn candidates_are_in_range(m: Matcher, readings: CandidateReadings)
    requires
        has_candidate(m, readings),
    ensures
        single::at_most(GAIN_MIN_LINEAR, candidate_of(m, readings).gain),
        single::at_most(candidate_of(m, readings).gain, GAIN_MAX_LINEAR),
{
}

/// In RMS mode a gain goes no higher than what brings the highest recent peak
/// to full scale, or than the lowest correction where even that is too high.
pub proof fn rms_gain_respects_headroom(m: Matcher, readings: CandidateReadings)
    requires
        has_candidate(m, readings),
        m.measurement_rms_mode,
        usable(highest(m.peaks)),
        !single::nan(readings.headroom_gain),
    ensures
        single::at_most(
            candidate_of(m, readings).gain,
            single::larger(readings.headroom_gain, GAIN_MIN_LINEAR),
        ),
{
}

/// Louder evidence, which asks for less gain, takes effect on the frame on which
/// it is heard.
pub proof fn less_gain_takes_effect_at_once(
    m: Matcher,
    input_peak: u32,
    first_complete_rms: bool,
    readings: CandidateReadings,
)
    requires
        has_candidate(m, readings),
        single::below(candidate_of(m, readings).gain, m.gain.linear),
    ensures
        takes_effect(m, input_peak, first_complete_rms, readings),
        decided(m, input_peak, first_complete_rms, readings).stability == unsettled(),
{
}

/// Quieter evidence, which asks for more gain, takes effect only on a frame with
/// a signal, and only after it has stayed within the stability ratio of one
/// anchor for the whole settling time.
pub proof fn more_gain_has_to_settle(
    m: Matcher,
    input_peak: u32,
    readings: CandidateReadings,
)
    requires
        !m.force_update,
        m.timing.stability_frames > 0,
        takes_effect(m, input_peak, false, readings),
        !single::below(candidate_of(m, readings).gain, m.gain.linear),
    ensures
        usable(input_peak),
        !moved(m.stability, candidate_of(m, readings), readings),
        counted(m.stability.frames) >= m.timing.stability_frames,
{
}

/// The engine after a run of frames that each brought the same decision inputs
/// and no new evidence.
pub open spec fn decided_repeatedly(
    m: Matcher,
    input_peak: u32,
    readings: CandidateReadings,
    frames: nat,
) -> Matcher
    decreases frames,
{
    if frames == 0 {
        m
    } else {
        decided(
            decided_repeatedly(m, input_peak, readings, (frames - 1) as nat),
            input_peak,
            false,
            readings,
        )
    }
}

/// A quieter level that stays put is followed in the end: from the frame that
/// set its anchor on, it waits for exactly the settling time, counting every
/// frame, and takes effect on the next frame with a signal.
pub proof fn a_steady_quieter_level_is_followed(
    m: Matcher,
    input_peak: u32,
    readings: CandidateReadings,
    frames: nat,
)
    requires
        !m.force_update,
        has_candidate(m, readings),
        !single::at_most(candidate_of(m, readings).gain, m.gain.linear),
        !moved(m.stability, candidate_of(m, readings), readings),
        m.stability.frames == 0,
        usable(input_peak),
        frames < m.timing.stability_frames,
    ensures
        ({
            let waiting = decided_repeatedly(m, input_peak, readings, frames);
            &&& waiting == (Matcher {
                stability: Stability { frames: frames as u64, ..m.stability },
                ..m
            })
            &&& takes_effect(waiting, input_peak, false, readings) <==> frames + 1
                == m.timing.stability_frames
        }),
    decreases frames,
{
    if frames > 0 {
        a_steady_quieter_level_is_followed(m, input_peak, readings, (frames - 1) as nat);
    }
}

/// Without a signal the gain is never raised, except by the first evidence of a
/// measurement.
pub proof fn silence_never_raises_the_gain(
    m: Matcher,
    input_peak: u32,
    readings: CandidateReadings,
)
    requires
        !usable(input_peak),
        !m.force_update,
        takes_effect(m, input_peak, false, readings),
    ensures
        single::below(candidate_of(m, readings).gain, m.gain.linear),
{
}

/// A gap that is shorter than the silence limit keeps the evidence; the first
/// signal after a longer one starts the measurement over.
pub proof fn only_long_silence_starts_over(m: Matcher, peak: u32)
    requires
        m.state == MatchState::Measuring,
        m.rms_mode,
    ensures
        usable(peak) && m.quiet_frames < m.timing.silence_frames ==> heard(m, peak).peaks == m.peaks
            && heard(m, peak).levels == m.levels && heard(m, peak).fade == m.fade && heard(
            m,
            peak,
        ).input == m.input && heard(m, peak).quiet_frames == 0,
        usable(peak) && m.quiet_frames >= m.timing.silence_frames ==> heard(m, peak).force_update
            && heard(m, peak).peaks == silent_buckets() && heard(m, peak).fade
            == restarted(m).fade,
        !usable(peak) ==> heard(m, peak).peaks == m.peaks && heard(m, peak).fade == m.fade,
        m.timing.silence_frames > 0 && usable(peak) ==> window_open(heard(m, peak), peak),
{
}

/// A published gain lies between the lowest correction and the highest, and is
/// read back from the store unchanged.
pub proof fn published_gain_is_in_range(gain_db: u32)
    ensures
        single::finite(published_db(gain_db)),
        single::at_most(CORRECTION_MIN_DB, published_db(gain_db)),
        single::at_most(published_db(gain_db), CORRECTION_MAX_DB),
        gain_in_range(published_db(gain_db)) == published_db(gain_db),
{
}

/// A protected sample never goes beyond its ceiling, in either direction.
pub proof fn protected_samples_stay_under_the_ceiling(sample: u32, ceiling: u32)
    requires
        single::is_level(ceiling),
        !single::nan(sample),
    ensures
        single::magnitude(single::clamped(sample, negated(ceiling), ceiling)) <= ceiling,
        single::magnitude(sample) <= ceiling ==> single::clamped(sample, negated(ceiling), ceiling)
            == sample,
{
}

/// The guard follows what a frame requires at once, and otherwise never moves
/// faster than it recovers.
pub proof fn guard_attacks_at_once(required: u64, recovered: u64)
    requires
        !double::nan(required),
        !double::nan(recovered),
    ensures
        double::at_most(double::smaller(required, recovered), required),
        double::at_most(double::smaller(required, recovered), recovered),
{
}

/// A gain that is not a finite number never reaches the output.
pub proof fn settled_gain_is_finite(m: Matcher, next: u64)
    ensures
        double::finite(settled(m, next).gain.current),
{
}

/// The fade up stays between its start and its end, and moves only in one
/// direction while its step leads forwards.
pub proof fn fade_moves_forwards(m: Matcher, stepped: u32)
    requires
        single::at_most(m.fade.in_position, single::ONE),
        single::at_most(m.fade.in_position, stepped),
    ensures
        single::at_most(m.fade.in_position, fade_advanced(m, stepped).fade.in_position),
        single::at_most(fade_advanced(m, stepped).fade.in_position, single::ONE),
{
}

/// A level is a usable signal exactly where it lies above one millionth.
pub proof fn signals_are_above_one_millionth(level: u32)
    ensures
        single::is_level(level) ==> (usable(level) <==> level > 0x3586_37bd),
        usable(level) ==> !single::nan(level) && level < single::SIGN,
{
}

/// The gain for a measured level is the requested gain wherever that lies inside
/// the range of corrections and, in RMS mode over a usable peak, within the
/// headroom. Outside it is the nearest bound: the headroom, or a correction of
/// 24 dB up or down, and the lowest correction only where the requested gain or
/// the headroom is no higher.
pub proof fn the_requested_gain_is_taken_where_it_fits(
    m: Matcher,
    level: u32,
    peak: u32,
    requested: u32,
    headroom: u32,
)
    requires
        single::finite(level),
        single::below(0x3586_37bd, level),
        !single::nan(requested),
        !single::nan(headroom),
    ensures
        ({
            let gain = bounded_gain(m, level, peak, requested, headroom);
            let lowest = 0x3d81_3856u32;
            let highest_correction = 0x417d_953au32;
            let limited = m.measurement_rms_mode && single::below(0x3586_37bd, peak);
            let roomy = !limited || single::at_most(requested, headroom);
            &&& single::at_most(lowest, requested) && single::at_most(requested, highest_correction)
                && roomy ==> gain == requested
            &&& single::at_most(lowest, headroom) && single::at_most(headroom, highest_correction)
                && !roomy ==> gain == headroom
            &&& (gain == lowest <==> single::at_most(requested, lowest) || (limited
                && single::at_most(headroom, lowest)))
            &&& (gain == highest_correction <==> single::at_most(highest_correction, requested) && (
            !limited || single::at_most(highest_correction, headroom)))
        }),
{
}

/// No level that is silent or not finite leads to a gain.
pub proof fn silence_leads_to_no_gain(
    m: Matcher,
    level: u32,
    peak: u32,
    requested: u32,
    headroom: u32,
)
    requires
        !single::finite(level) || !single::below(0x3586_37bd, level),
    ensures
        bounded_gain(m, level, peak, requested, headroom) == single::ZERO,
{
}

/// A louder level never leads to more gain: where the requested gain and the
/// headroom are no higher, neither is the gain.
pub proof fn the_gain_follows_the_request(
    m: Matcher,
    level: u32,
    peak: u32,
    requested: u32,
    headroom: u32,
    other_level: u32,
    other_requested: u32,
)
    requires
        single::finite(level),
        usable(level),
        single::finite(other_level),
        usable(other_level),
        single::at_most(requested, other_requested),
        !single::nan(headroom),
    ensures
        single::at_most(
            bounded_gain(m, level, peak, requested, headroom),
            bounded_gain(m, other_level, peak, other_requested, headroom),
        ),
{
}

/// A candidate is the gain for the measured level, over the highest recent peak.
/// It counts exactly where that level is a signal and the request is a number.
pub proof fn candidates_come_from_the_measured_level(m: Matcher, readings: CandidateReadings)
    requires
        sound_buckets(m.peaks),
        sound_buckets(m.levels),
        !single::nan(readings.requested_gain),
    ensures
        candidate_of(m, readings).level == candidate_level(m),
        candidate_of(m, readings).gain == bounded_gain(
            m,
            candidate_level(m),
            highest(m.peaks),
            readings.requested_gain,
            readings.headroom_gain,
        ),
        has_candidate(m, readings) <==> candidate_level(m) > 0x3586_37bd,
{
    buckets_stay_sound(m.peaks, single::ZERO);
    buckets_stay_sound(m.levels, single::ZERO);
}

/// The measured level is the strongest recent RMS window where an RMS
/// measurement has a complete window above silence, and the highest recent peak
/// otherwise.
pub proof fn the_measured_level_is_the_strongest(m: Matcher, i: int)
    requires
        sound_buckets(m.peaks),
        sound_buckets(m.levels),
        0 <= i < MATCH_HISTORY_BUCKET_COUNT,
    ensures
        ({
            let level = candidate_level(m);
            let by_window = m.measurement_rms_mode && m.input.squares.len() == m.input.capacity
                && (exists|j: int| 0 <= j < m.levels.len() && #[trigger] m.levels[j] > 0x3586_37bd);
            &&& by_window ==> m.levels[i] <= level && m.levels.contains(level)
            &&& !by_window ==> m.peaks[i] <= level && (level == single::ZERO || m.peaks.contains(
                level,
            ))
        }),
{
    buckets_stay_sound(m.peaks, single::ZERO);
    buckets_stay_sound(m.levels, single::ZERO);
    highest_is_the_maximum(m.peaks);
    highest_is_the_maximum(m.levels);
}

/// The fade up moves on whenever nothing fades down and either no measurement is
/// open, however the last one ended, or the open one has heard a signal: to the
/// stepped position, or to its end where that is reached. It rests otherwise,
/// and nothing but its position ever changes.
pub proof fn the_fade_up_moves_on(m: Matcher, stepped: u32)
    ensures
        ({
            let after = fade_advanced(m, stepped);
            let moves = !single::below(m.fade.out_position, 0x3f80_0000) && (m.state
                != MatchState::Measuring || single::below(0x3586_37bd, highest(m.peaks)));
            &&& after == (Matcher {
                fade: Fade { in_position: after.fade.in_position, ..m.fade },
                ..m
            })
            &&& moves && single::at_most(stepped, 0x3f80_0000) ==> after.fade.in_position == stepped
            &&& moves && !single::at_most(stepped, 0x3f80_0000) ==> after.fade.in_position
                == 0x3f80_0000
            &&& !moves ==> after.fade.in_position == m.fade.in_position
        }),
{
}

/// The matched signal is bounded by the target in Peak mode, while a measurement
/// is open or its fade up is not at its end, and by full scale otherwise; the
/// outgoing signal fades down until its position has reached 1.0.
pub proof fn fades_apply_by_mode_and_position(m: Matcher)
    ensures
        faded(m).position == m.fade.in_position,
        faded(m).fading_out <==> single::below(m.fade.out_position, 0x3f80_0000),
        faded(m).ceiling == m.target.peak || faded(m).ceiling == 0x3f80_0000,
        m.measurement_rms_mode ==> faded(m).ceiling == 0x3f80_0000,
        !m.measurement_rms_mode && m.state == MatchState::Measuring ==> faded(m).ceiling
            == m.target.peak,
        !m.measurement_rms_mode && single::below(m.fade.in_position, 0x3f80_0000) ==> faded(
            m,
        ).ceiling == m.target.peak,
        m.state != MatchState::Measuring && !single::below(m.fade.in_position, 0x3f80_0000)
            ==> faded(m).ceiling == 0x3f80_0000,
{
}

/// A stored gain that differs from the calculated one by more than a
/// ten-thousandth of a decibel is followed, with its factors, wherever no
/// measurement is open after the controls were followed and none ended just
/// then. In every other case the gain stays as it is. The smoothed gain and the
/// guard are left to move on their own.
pub proof fn stored_gains_are_followed(m: Matcher, controls: Controls, readings: ControlReadings)
    ensures
        ({
            let after = synchronized(m, controls, readings);
            let ends = m.requested && m.state == MatchState::Measuring
                && !controls.match_requested;
            let differs = single::below(0x38d1_b717, readings.gain_distance);
            &&& after.state != MatchState::Measuring && !ends && differs ==> {
                &&& after.gain.target == readings.gain_double
                &&& after.gain.locked_db == controls.locked_gain_db
                &&& after.gain.linear == readings.gain_linear
                &&& after.gain.current == m.gain.current
                &&& after.gain.guard == m.gain.guard
            }
            &&& after.state == MatchState::Measuring || ends || !differs ==> after.gain == m.gain
        }),
{
}

/// Whether a measurement has no evidence yet, in the selected mode.
pub open spec fn holds_no_evidence(m: Matcher) -> bool {
    &&& m.measurement_rms_mode == m.rms_mode
    &&& m.input.squares.len() == 0
    &&& m.input.sum == (0u64, 0u64)
    &&& m.input.compensation == (0u64, 0u64)
    &&& m.rms_frames == 0
    &&& m.quiet_frames == 0
    &&& m.measurement_level == 0
    &&& m.peaks.len() == 31
    &&& m.levels.len() == 31
    &&& forall|i: int| 0 <= i < 31 ==> #[trigger] m.peaks[i] == 0
    &&& forall|i: int| 0 <= i < 31 ==> #[trigger] m.levels[i] == 0
    &&& m.bucket_position == 0
    &&& m.stability.frames == 0
    &&& m.stability.anchor_gain == 0
    &&& m.stability.anchor_level == 0
    &&& !m.candidate_seen
    &&& m.force_update
}

/// Whether the fades of an engine begin anew, from what another one last heard:
/// down first where that was audible, up from silence.
pub open spec fn fades_anew(m: Matcher, before: Matcher) -> bool {
    &&& m.fade.in_position == 0
    &&& m.fade.out_gain == before.last.gain
    &&& m.fade.out_ceiling == before.last.ceiling
    &&& single::below(0x3586_37bd, before.last.peak) ==> m.fade.out_position == 0
    &&& !single::below(0x3586_37bd, before.last.peak) ==> m.fade.out_position == 0x3f80_0000
}

/// Whether an engine holds the same evidence and the same fades as another one.
pub open spec fn keeps_evidence(m: Matcher, before: Matcher) -> bool {
    &&& m.measurement_rms_mode == before.measurement_rms_mode
    &&& m.input == before.input
    &&& m.rms_frames == before.rms_frames
    &&& m.measurement_level == before.measurement_level
    &&& m.peaks == before.peaks
    &&& m.levels == before.levels
    &&& m.bucket_position == before.bucket_position
    &&& m.stability == before.stability
    &&& m.candidate_seen == before.candidate_seen
    &&& m.force_update == before.force_update
    &&& m.fade == before.fade
}

/// While Match stays on with a measurement open, a selected target that differs
/// from the measured one, in Peak mode and in RMS mode alike, a request to start
/// over, and another mode each make the engine hold the selected target, drop
/// its evidence and fade anew. So does Match where it was off before.
pub proof fn edits_start_a_fresh_measurement(
    m: Matcher,
    controls: Controls,
    readings: ControlReadings,
)
    requires
        controls.match_requested,
        ({
            ||| !m.requested
            ||| m.rms_mode != controls.rms_mode
            ||| m.state == MatchState::Measuring && single::below(
                0x3400_0000,
                readings.target_distance,
            )
            ||| m.state == MatchState::Measuring && m.restart_generation
                != controls.restart_generation
        }),
    ensures
        ({
            let after = synchronized(m, controls, readings);
            &&& after.state == MatchState::Measuring
            &&& after.rms_mode == controls.rms_mode
            &&& after.target.db == controls.target_db
            &&& after.target.peak == readings.target_peak
            &&& holds_no_evidence(after)
            &&& fades_anew(after, m)
            &&& after.input.capacity == m.input.capacity
            &&& after.gain == m.gain
        }),
{
}

/// Controls that neither start nor restart a measurement leave target, evidence
/// and fades alone.
pub proof fn other_controls_keep_the_measurement(
    m: Matcher,
    controls: Controls,
    readings: ControlReadings,
)
    requires
        controls.match_requested ==> {
            &&& m.requested
            &&& m.rms_mode == controls.rms_mode
            &&& m.state == MatchState::Measuring ==> m.restart_generation
                == controls.restart_generation && !single::below(
                0x3400_0000,
                readings.target_distance,
            )
        },
    ensures
        ({
            let after = synchronized(m, controls, readings);
            &&& keeps_evidence(after, m)
            &&& after.quiet_frames == m.quiet_frames
            &&& after.target == m.target
        }),
{
}

/// Following the controls takes over the mode, the switch and the count of
/// restarts, and touches neither the meters nor what was last heard. Only
/// switching Match off ends an open measurement: without a signal where the
/// measured level is at most one millionth, with the gain locked otherwise.
pub proof fn controls_decide_the_state(m: Matcher, controls: Controls, readings: ControlReadings)
    ensures
        ({
            let after = synchronized(m, controls, readings);
            let ends = m.requested && m.state == MatchState::Measuring
                && !controls.match_requested;
            &&& after.rms_mode == controls.rms_mode
            &&& after.requested == controls.match_requested
            &&& after.restart_generation == controls.restart_generation
            &&& after.timing == m.timing
            &&& after.output == m.output
            &&& after.block == m.block
            &&& after.last == m.last
            &&& ends && single::at_most(m.measurement_level, 0x3586_37bd) ==> after.state
                == MatchState::NoSignal
            &&& ends && !single::at_most(m.measurement_level, 0x3586_37bd) ==> after.state
                == MatchState::Locked
            &&& !ends && !controls.match_requested ==> after.state == m.state
            &&& m.state == MatchState::Measuring && controls.match_requested ==> after.state
                == MatchState::Measuring
            &&& controls.match_requested && !m.requested ==> after.state == MatchState::Measuring
            &&& after.state == MatchState::Measuring ==> controls.match_requested || m.state
                == MatchState::Measuring
            &&& controls.match_requested && m.requested && m.rms_mode == controls.rms_mode
                ==> after.state == m.state
        }),
{
}

/// A processing boundary forgets the measurement, the meters and the fades, takes
/// over what is stored, and waits for Match to be switched on.
pub proof fn boundaries_forget_the_measurement(
    m: Matcher,
    controls: Controls,
    readings: ControlReadings,
)
    ensures
        ({
            let after = cleared(m, controls, readings);
            &&& after.timing == m.timing
            &&& holds_no_evidence(Matcher { force_update: true, ..after })
            &&& after.rms_mode == controls.rms_mode
            &&& after.input.capacity == m.input.capacity
            &&& after.output.capacity == m.output.capacity
            &&& after.output.squares.len() == 0
            &&& after.output.sum == (0u64, 0u64)
            &&& after.output.compensation == (0u64, 0u64)
            &&& after.fade.in_position == 0x3f80_0000
            &&& after.fade.out_position == 0x3f80_0000
            &&& after.fade.out_gain == 0
            &&& after.fade.out_ceiling == 0x3f80_0000
            &&& after.force_update == m.force_update
            &&& after.last.gain == readings.gain_linear
            &&& after.last.ceiling == 0x3f80_0000
            &&& after.last.peak == 0
            &&& after.block.input == 0
            &&& after.block.output == 0
            &&& after.target.db == controls.target_db
            &&& after.target.peak == readings.target_peak
            &&& after.gain.locked_db == controls.locked_gain_db
            &&& after.gain.linear == readings.gain_linear
            &&& after.gain.target == readings.gain_double
            &&& after.gain.current == readings.gain_double
            &&& after.gain.guard == 0x3ff0_0000_0000_0000
            &&& !after.requested
            &&& after.restart_generation == controls.restart_generation
            &&& after.state == MatchState::Ready
        }),
{
}

/// A new engine is one that has just crossed a boundary, in Peak mode.
pub proof fn engines_begin_without_a_measurement(
    timing: Timing,
    window_frames: nat,
    locked_db: u32,
    gain_linear: u32,
    gain_double: u64,
    target: Target,
)
    ensures
        ({
            let m = initial(timing, window_frames, locked_db, gain_linear, gain_double, target);
            &&& m.timing == timing
            &&& m.target == target
            &&& !m.rms_mode
            &&& !m.requested
            &&& m.state == MatchState::Ready
            &&& holds_no_evidence(Matcher { force_update: true, ..m })
            &&& m.input.capacity == window_frames
            &&& m.output.capacity == window_frames
            &&& m.output.squares.len() == 0
            &&& m.output.sum == (0u64, 0u64)
            &&& m.output.compensation == (0u64, 0u64)
            &&& m.fade.in_position == 0x3f80_0000
            &&& m.fade.out_position == 0x3f80_0000
            &&& m.fade.out_gain == 0
            &&& m.fade.out_ceiling == 0x3f80_0000
            &&& !m.force_update
            &&& m.last.gain == gain_linear
            &&& m.last.ceiling == 0x3f80_0000
            &&& m.last.peak == 0
            &&& m.block.input == 0
            &&& m.block.output == 0
            &&& m.gain.locked_db == locked_db
            &&& m.gain.linear == gain_linear
            &&& m.gain.target == gain_double
            &&& m.gain.current == gain_double
            &&& m.gain.guard == 0x3ff0_0000_0000_0000
            &&& m.restart_generation == 0
        }),
{
}

/// Hearing a frame raises the input meter to its peak. In an open RMS
/// measurement it counts silence, forgets the count on a signal, and drops all
/// evidence and fades anew where the signal follows a long silence; it changes
/// nothing else.
pub proof fn hearing_meters_and_watches_for_silence(m: Matcher, peak: u32)
    requires
        single::is_level(peak),
        single::is_level(m.block.input),
    ensures
        ({
            let after = heard(m, peak);
            let watches = m.state == MatchState::Measuring && m.rms_mode;
            let signal = peak > 0x3586_37bd;
            let again = watches && signal && m.quiet_frames >= m.timing.silence_frames;
            &&& after.block.input == (if peak > m.block.input {
                peak
            } else {
                m.block.input
            })
            &&& after.block.output == m.block.output
            &&& after.state == m.state
            &&& after.requested == m.requested
            &&& after.rms_mode == m.rms_mode
            &&& after.restart_generation == m.restart_generation
            &&& after.timing == m.timing
            &&& after.target == m.target
            &&& after.gain == m.gain
            &&& after.last == m.last
            &&& after.output == m.output
            &&& again ==> holds_no_evidence(after) && fades_anew(after, m) && after.input.capacity
                == m.input.capacity
            &&& !again ==> keeps_evidence(after, m)
            &&& watches && signal ==> after.quiet_frames == 0
            &&& watches && !signal && m.quiet_frames < u64::MAX ==> after.quiet_frames
                == m.quiet_frames + 1
            &&& watches && !signal && m.quiet_frames == u64::MAX ==> after.quiet_frames == u64::MAX
            &&& !watches ==> after.quiet_frames == m.quiet_frames
        }),
{
}

/// A frame goes into the RMS window exactly while an RMS measurement is open, a
/// signal was heard, now or in the recent past, and no long silence has passed.
pub proof fn windows_open_with_the_first_signal(m: Matcher, peak: u32)
    requires
        sound_buckets(m.peaks),
        single::is_level(peak),
    ensures
        window_open(m, peak) <==> {
            &&& m.state == MatchState::Measuring
            &&& m.rms_mode
            &&& m.quiet_frames < m.timing.silence_frames
            &&& peak > 0x3586_37bd || exists|i: int|
                0 <= i < m.peaks.len() && #[trigger] m.peaks[i] > 0x3586_37bd
        },
{
    buckets_stay_sound(m.peaks, peak);
    highest_is_the_maximum(m.peaks);
}

/// A measured frame is evidence by its peak and, where it completes an RMS
/// window, by the level of the window: each raises only the newest bucket, and
/// nothing else changes.
pub proof fn frames_are_noted_in_the_newest_bucket(
    m: Matcher,
    peak: u32,
    measured: bool,
    level: u32,
    i: int,
)
    requires
        sound_buckets(m.peaks),
        sound_buckets(m.levels),
        single::is_level(peak),
        0 <= i < MATCH_HISTORY_BUCKET_COUNT,
    ensures
        ({
            let after = evidenced(m, peak, measured, level);
            let counts = measured && m.rms_mode && m.rms_frames > 0 && m.input.squares.len()
                == m.input.capacity;
            let newest = MATCH_HISTORY_BUCKET_COUNT - 1;
            &&& after == (Matcher {
                peaks: after.peaks,
                levels: after.levels,
                candidate_seen: after.candidate_seen,
                ..m
            })
            &&& after.peaks.len() == m.peaks.len()
            &&& after.levels.len() == m.levels.len()
            &&& i < newest ==> after.peaks[i] == m.peaks[i] && after.levels[i] == m.levels[i]
            &&& after.peaks[newest] == (if peak > m.peaks[newest] {
                peak
            } else {
                m.peaks[newest]
            })
            &&& after.levels[newest] == (if counts && level < 0x7f80_0000 && level
                > m.levels[newest] {
                level
            } else {
                m.levels[newest]
            })
            &&& after.candidate_seen <==> m.candidate_seen || (counts && single::below(
                0x3586_37bd,
                level,
            ))
        }),
{
}

/// A quieter candidate stays put exactly while its anchor is a signal with a
/// finite gain, and its gain and its level both lie within the stability ratio
/// of the anchor; it then gets one frame older. Any other candidate becomes the
/// anchor itself.
pub proof fn candidates_stay_put_near_their_anchor(
    s: Stability,
    candidate: Candidate,
    readings: CandidateReadings,
)
    requires
        !single::nan(candidate.gain),
        !single::nan(candidate.level),
        !single::nan(readings.gain_low),
        !single::nan(readings.gain_high),
        !single::nan(readings.level_low),
        !single::nan(readings.level_high),
    ensures
        ({
            let after = stayed(s, candidate, readings);
            let near = {
                &&& single::below(0, s.anchor_gain)
                &&& single::finite(s.anchor_gain)
                &&& single::below(0x3586_37bd, s.anchor_level)
                &&& single::finite(s.anchor_level)
                &&& single::at_most(readings.gain_low, candidate.gain)
                &&& single::at_most(candidate.gain, readings.gain_high)
                &&& single::at_most(readings.level_low, candidate.level)
                &&& single::at_most(candidate.level, readings.level_high)
            };
            &&& near ==> after.anchor_gain == s.anchor_gain && after.anchor_level == s.anchor_level
            &&& near && s.frames < u64::MAX ==> after.frames == s.frames + 1
            &&& near && s.frames == u64::MAX ==> after.frames == u64::MAX
            &&& !near ==> after.frames == 0 && after.anchor_gain == candidate.gain
                && after.anchor_level == candidate.level
            &&& moved(s, candidate, readings) <==> !near
        }),
{
}

/// A candidate takes effect at once as the first of its measurement, with the
/// first complete RMS window, and where it asks for less gain. One that asks for
/// more takes effect on a frame with a signal, once it has stayed put for the
/// settling time, and waits until then; one that asks for the same gain changes
/// nothing.
pub proof fn candidates_take_effect_at_once_or_settled(
    m: Matcher,
    input_peak: u32,
    first_complete_rms: bool,
    readings: CandidateReadings,
)
    requires
        has_candidate(m, readings),
        !single::nan(m.gain.linear),
    ensures
        ({
            let gain = candidate_of(m, readings).gain;
            let waited = stayed(m.stability, candidate_of(m, readings), readings);
            let effect = takes_effect(m, input_peak, first_complete_rms, readings);
            let after = decided(m, input_peak, first_complete_rms, readings);
            let forced = m.force_update || first_complete_rms;
            let louder = single::below(gain, m.gain.linear);
            let quieter = single::below(m.gain.linear, gain);
            &&& forced || louder ==> effect
            &&& !forced && !louder && !quieter ==> !effect
            &&& !forced && quieter ==> (effect <==> waited.frames >= m.timing.stability_frames
                && single::below(0x3586_37bd, input_peak))
            &&& after == (Matcher {
                stability: after.stability,
                force_update: after.force_update,
                ..m
            })
            &&& after.force_update <==> m.force_update && !forced
            &&& !forced && quieter && !effect ==> after.stability == waited
            &&& forced || effect || !quieter ==> after.stability.frames == 0
                && after.stability.anchor_gain == 0 && after.stability.anchor_level == 0
        }),
{
}

/// Evidence that leads to no gain decides nothing, and drops a waiting candidate.
pub proof fn without_a_candidate_nothing_is_decided(
    m: Matcher,
    input_peak: u32,
    first_complete_rms: bool,
    readings: CandidateReadings,
)
    requires
        !has_candidate(m, readings),
    ensures
        !takes_effect(m, input_peak, first_complete_rms, readings),
        ({
            let after = decided(m, input_peak, first_complete_rms, readings);
            &&& after.force_update == m.force_update
            &&& after.stability.frames == 0
            &&& after.stability.anchor_gain == 0
            &&& after.stability.anchor_level == 0
            &&& after == (Matcher { stability: after.stability, ..m })
        }),
{
}

/// A published gain is the calculated one between -24 dB and +24 dB, the nearer
/// of the two outside, and 0 dB for what is not a number.
pub proof fn gains_are_published_within_24_db(gain_db: u32)
    ensures
        single::at_most(0xc1c0_0000, gain_db) && single::at_most(gain_db, 0x41c0_0000)
            ==> published_db(gain_db) == gain_db,
        single::below(gain_db, 0xc1c0_0000) ==> published_db(gain_db) == 0xc1c0_0000,
        single::below(0x41c0_0000, gain_db) ==> published_db(gain_db) == 0x41c0_0000,
        single::nan(gain_db) ==> published_db(gain_db) == 0,
{
}

/// A candidate that takes effect sets the measured level, the gain and the
/// factor that the smoothing moves towards; the smoothed gain and the guard move
/// on their own.
pub proof fn publishing_sets_the_gain(
    m: Matcher,
    candidate: Candidate,
    gain_db: u32,
    gain_double: u64,
)
    ensures
        ({
            let after = published(m, candidate, gain_db, gain_double);
            &&& after.measurement_level == candidate.level
            &&& after.gain.linear == candidate.gain
            &&& after.gain.locked_db == published_db(gain_db)
            &&& after.gain.target == gain_double
            &&& after.gain.current == m.gain.current
            &&& after.gain.guard == m.gain.guard
            &&& after == (Matcher {
                measurement_level: after.measurement_level,
                gain: after.gain,
                ..m
            })
        }),
{
}

/// A measured frame fills the newest bucket; once that holds its frames, every
/// bucket gets one older, the oldest is dropped and the newest is silent.
pub proof fn buckets_age_by_their_frames(m: Matcher, i: int)
    requires
        sound_buckets(m.peaks),
        sound_buckets(m.levels),
        m.bucket_position < m.timing.bucket_frames,
        0 <= i < MATCH_HISTORY_BUCKET_COUNT,
    ensures
        ({
            let after = advanced(m);
            let newest = MATCH_HISTORY_BUCKET_COUNT - 1;
            let full = m.bucket_position + 1 == m.timing.bucket_frames;
            &&& m.state != MatchState::Measuring ==> after == m
            &&& after == (Matcher {
                bucket_position: after.bucket_position,
                peaks: after.peaks,
                levels: after.levels,
                ..m
            })
            &&& m.state == MatchState::Measuring && !full ==> {
                &&& after.bucket_position == m.bucket_position + 1
                &&& after.peaks == m.peaks
                &&& after.levels == m.levels
            }
            &&& m.state == MatchState::Measuring && full ==> {
                &&& after.bucket_position == 0
                &&& after.peaks.len() == m.peaks.len()
                &&& after.levels.len() == m.levels.len()
                &&& i < newest ==> after.peaks[i] == m.peaks[i + 1] && after.levels[i]
                    == m.levels[i + 1]
                &&& after.peaks[newest] == 0
                &&& after.levels[newest] == 0
            }
        }),
{
}

/// The smoothed gain is what the caller moved it to; one that is not finite
/// falls back to unity, with the gain it moves towards and 0 dB.
pub proof fn the_smoothed_gain_moves_or_falls_back(m: Matcher, next: u64)
    ensures
        ({
            let after = settled(m, next);
            &&& after == (Matcher { gain: after.gain, ..m })
            &&& after.gain.guard == m.gain.guard
            &&& after.gain.linear == m.gain.linear
            &&& double::finite(next) ==> after.gain.current == next && after.gain.target
                == m.gain.target && after.gain.locked_db == m.gain.locked_db
            &&& !double::finite(next) ==> after.gain.current == 0x3ff0_0000_0000_0000
                && after.gain.target == 0x3ff0_0000_0000_0000 && after.gain.locked_db == 0
        }),
{
}

/// Any gain is allowed over silence; over a peak, only up to the quotient of
/// ceiling and peak.
pub proof fn silence_allows_any_gain(peak: u32, quotient: u32)
    requires
        single::is_level(peak),
    ensures
        peak > 0 ==> allowed(peak, quotient) == quotient,
        peak == 0 ==> allowed(peak, quotient) == 0x7f7f_ffff,
{
}

/// A linear level is shown in decibels between -120 dB and +24 dB, and as -120 dB
/// where it is no signal or not finite.
pub proof fn levels_are_shown_on_the_scale(linear: u32, decibels: u32)
    ensures
        !single::finite(linear) || !single::below(0x3586_37bd, linear) ==> level_in_db(
            linear,
            decibels,
        ) == 0xc2f0_0000,
        single::finite(linear) && single::below(0x3586_37bd, linear) ==> {
            &&& single::below(decibels, 0xc2f0_0000) ==> level_in_db(linear, decibels) == 0xc2f0_0000
            &&& single::below(0x41c0_0000, decibels) ==> level_in_db(linear, decibels) == 0x41c0_0000
            &&& single::at_most(0xc2f0_0000, decibels) && single::at_most(decibels, 0x41c0_0000)
                ==> level_in_db(linear, decibels) == decibels
        },
{
}

/// Counts go up by one until the largest, a count of nothing is taken as one,
/// and the other sign is the same number on the other side of 0.0.
pub proof fn counts_and_signs(count: u64, bits: u32)
    ensures
        count < u64::MAX ==> counted(count) == count + 1,
        count == u64::MAX ==> counted(count) == count,
        count > 0 ==> at_least_one(count) == count,
        count == 0 ==> at_least_one(count) == 1,
        single::magnitude(negated(bits)) == single::magnitude(bits),
        negated(bits) != bits,
        single::rank(negated(bits)) == -single::rank(bits),
{
}

} // verus!
