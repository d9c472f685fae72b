//! Whole frames, and runs of frames between two switches of Match: what holds
//! from the first ask of a frame to its last reply, and from a start to the end
//! of the measurement.
use vstd::prelude::*;

use crate::frame::{
    asked, frames_only_publish_a_gain, levels_noted, replied, started, Ask, FadedNumbers, Reply,
    Scene, Stage,
};
use crate::history::{buckets_stay_sound, highest, silent_buckets, sound_buckets};
use crate::matcher::{
    cleared, counted, evidenced, faded, heard, initial, starts_over, synchronized, usable,
    window_open, BlockPeaks, ControlReadings, FrameInput, LastOutput, Matcher, Target, Timing,
};
use crate::params::Controls;
use crate::single;
use crate::status::MatchState;

verus! {

/// A frame at its first ask.
pub open spec fn begun(m: Matcher, controls: Controls, input: FrameInput) -> Scene {
    let (stage, matcher) = started(m, input.peak);
    Scene { stage, matcher, controls }
}

/// A frame after some replies.
pub open spec fn run(scene: Scene, input: FrameInput, replies: Seq<Reply>) -> Scene
    decreases replies.len(),
{
    if replies.len() == 0 {
        scene
    } else {
        replied(run(scene, input, replies.drop_last()), input, replies.last())
    }
}

/// Fading by a factor between 0.0 and 1.0 leaves numbers, and raises no ceiling.
pub open spec fn fades_within(numbers: FadedNumbers, ceiling: u32) -> bool {
    &&& !single::nan(numbers.left)
    &&& !single::nan(numbers.right)
    &&& single::is_level(numbers.ceiling)
    &&& numbers.ceiling <= ceiling
}

/// What arithmetic on finite numbers never fails to give: a requested gain is a
/// number, and a fade factor between 0.0 and 1.0 makes nothing larger.
pub open spec fn sound(scene: Scene, reply: Reply) -> bool {
    match (scene.stage, reply) {
        (Stage::Evaluate { first_complete_rms }, Reply::Readings(readings)) => !single::nan(
            readings.requested_gain,
        ),
        (Stage::FadeOutgoing, Reply::Faded(numbers)) => fades_within(
            numbers,
            scene.matcher.fade.out_ceiling,
        ),
        (Stage::FadeMatched(fade, gain), Reply::Faded(numbers)) => fades_within(
            numbers,
            fade.ceiling,
        ),
        (Stage::Scale { left, right, factor }, Reply::Pair(scaled_left, scaled_right)) => {
            &&& single::magnitude(scaled_left) <= single::magnitude(left)
            &&& single::magnitude(scaled_right) <= single::magnitude(right)
        },
        _ => true,
    }
}

/// A run of replies that are all sound.
pub open spec fn sound_run(scene: Scene, input: FrameInput, replies: Seq<Reply>) -> bool
    decreases replies.len(),
{
    replies.len() == 0 || {
        &&& sound_run(scene, input, replies.drop_last())
        &&& sound(run(scene, input, replies.drop_last()), replies.last())
    }
}

/// The ceiling of a frame: that of the outgoing signal while it fades down, that
/// of the matched signal otherwise.
pub open spec fn frame_ceiling(m: Matcher) -> u32 {
    if faded(m).fading_out {
        m.fade.out_ceiling
    } else {
        faded(m).ceiling
    }
}

/// Whether a frame is on its way to samples under a ceiling.
pub open spec fn kept_under(scene: Scene, ceiling: u32) -> bool {
    match scene.stage {
        Stage::Allow(fade) | Stage::Guard(fade, _) => ceiling == if fade.fading_out {
            scene.matcher.fade.out_ceiling
        } else {
            fade.ceiling
        },
        Stage::Attenuate(fade, _, _) | Stage::FadeMatched(fade, _) => ceiling == fade.ceiling,
        Stage::HoldOutgoing | Stage::FadeOutgoing => ceiling == scene.matcher.fade.out_ceiling,
        Stage::Scale { left, right, factor } => {
            &&& single::magnitude(left) <= ceiling
            &&& single::magnitude(right) <= ceiling
        },
        Stage::OutputSums { left, right } | Stage::Done { left, right } => {
            &&& single::magnitude(left) <= ceiling
            &&& single::magnitude(right) <= ceiling
        },
        _ => ceiling == frame_ceiling(scene.matcher),
    }
}

/// Every ceiling is at most full scale.
pub open spec fn full_scale(m: Matcher) -> bool {
    &&& m.target.peak <= single::ONE
    &&& m.fade.out_ceiling <= single::ONE
    &&& m.last.ceiling <= single::ONE
}

proof fn a_reply_keeps_under(scene: Scene, input: FrameInput, reply: Reply, ceiling: u32)
    requires
        single::is_level(ceiling),
        kept_under(scene, ceiling),
        sound(scene, reply),
    ensures
        kept_under(replied(scene, input, reply), ceiling),
        full_scale(scene.matcher) && ceiling <= single::ONE ==> full_scale(
            replied(scene, input, reply).matcher,
        ),
{
}

proof fn a_run_keeps_under(scene: Scene, input: FrameInput, replies: Seq<Reply>, ceiling: u32)
    requires
        single::is_level(ceiling),
        kept_under(scene, ceiling),
        sound_run(scene, input, replies),
    ensures
        kept_under(run(scene, input, replies), ceiling),
        full_scale(scene.matcher) && ceiling <= single::ONE ==> full_scale(
            run(scene, input, replies).matcher,
        ),
    decreases replies.len(),
{
    if replies.len() > 0 {
        a_run_keeps_under(scene, input, replies.drop_last(), ceiling);
        a_reply_keeps_under(
            run(scene, input, replies.drop_last()),
            input,
            replies.last(),
            ceiling,
        );
    }
}

/// A finished frame stays under its ceiling: no output sample is larger, in
/// either direction, than the ceiling that held when the frame was heard.
pub proof fn finished_frames_stay_under_their_ceiling(
    m: Matcher,
    controls: Controls,
    input: FrameInput,
    replies: Seq<Reply>,
)
    requires
        single::is_level(frame_ceiling(heard(m, input.peak))),
        sound_run(begun(m, controls, input), input, replies),
    ensures
        match run(begun(m, controls, input), input, replies).stage {
            Stage::Done { left, right } => {
                &&& single::magnitude(left) <= frame_ceiling(heard(m, input.peak))
                &&& single::magnitude(right) <= frame_ceiling(heard(m, input.peak))
            },
            _ => true,
        },
{
    let ceiling = frame_ceiling(heard(m, input.peak));
    a_frame_starts_under_its_ceiling(m, controls, input);
    a_run_keeps_under(begun(m, controls, input), input, replies, ceiling);
}

/// While Peak mode measures, a frame that is not fading down stays under the
/// target peak; without a measurement or a fade, and in RMS mode, under full
/// scale.
pub proof fn the_target_bounds_peak_measurements(m: Matcher)
    requires
        !faded(m).fading_out,
    ensures
        !m.measurement_rms_mode && m.state == MatchState::Measuring ==> frame_ceiling(m)
            == m.target.peak,
        m.measurement_rms_mode ==> frame_ceiling(m) == single::ONE,
        m.state != MatchState::Measuring && !single::below(m.fade.in_position, single::ONE)
            ==> frame_ceiling(m) == single::ONE,
{
}

/// One thing that happens to an engine.
pub enum Step {
    /// A block begins under some controls.
    Begin {
        /// The controls.
        controls: Controls,
        /// What the caller takes from them.
        readings: ControlReadings,
    },
    /// The controls change inside a block.
    Follow {
        /// The controls.
        controls: Controls,
        /// What the caller takes from them.
        readings: ControlReadings,
    },
    /// The host crosses a processing boundary.
    Clear {
        /// The controls.
        controls: Controls,
        /// What the caller takes from them.
        readings: ControlReadings,
    },
    /// A frame passes.
    Frame {
        /// The controls.
        controls: Controls,
        /// The input samples.
        input: FrameInput,
        /// The replies to its asks.
        replies: Seq<Reply>,
    },
}

/// The engine without the peaks of the last block.
pub open spec fn unmetered(m: Matcher) -> Matcher {
    Matcher { block: BlockPeaks { input: single::ZERO, output: single::ZERO }, ..m }
}

/// The engine after one step.
pub open spec fn stepped(m: Matcher, step: Step) -> Matcher {
    match step {
        Step::Begin { controls, readings } => synchronized(unmetered(m), controls, readings),
        Step::Follow { controls, readings } => synchronized(m, controls, readings),
        Step::Clear { controls, readings } => cleared(m, controls, readings),
        Step::Frame { controls, input, replies } => run(
            begun(m, controls, input),
            input,
            replies,
        ).matcher,
    }
}

/// The engine after some steps.
pub open spec fn played(m: Matcher, steps: Seq<Step>) -> Matcher
    decreases steps.len(),
{
    if steps.len() == 0 {
        m
    } else {
        stepped(played(m, steps.drop_last()), steps.last())
    }
}

/// A step whose numbers are what arithmetic on finite numbers gives: a target
/// peak at or below full scale, and frames that are answered to their end.
pub open spec fn sound_step(m: Matcher, step: Step) -> bool {
    match step {
        Step::Begin { controls, readings } => readings.target_peak <= single::ONE,
        Step::Follow { controls, readings } => readings.target_peak <= single::ONE,
        Step::Clear { controls, readings } => readings.target_peak <= single::ONE,
        Step::Frame { controls, input, replies } => {
            &&& single::is_level(input.peak)
            &&& sound_run(begun(m, controls, input), input, replies)
            &&& run(begun(m, controls, input), input, replies).stage is Done
        },
    }
}

/// Steps that are all sound.
pub open spec fn sound_steps(m: Matcher, steps: Seq<Step>) -> bool
    decreases steps.len(),
{
    steps.len() == 0 || {
        &&& sound_steps(m, steps.drop_last())
        &&& sound_step(played(m, steps.drop_last()), steps.last())
    }
}

proof fn a_frame_starts_under_its_ceiling(m: Matcher, controls: Controls, input: FrameInput)
    ensures
        kept_under(begun(m, controls, input), frame_ceiling(heard(m, input.peak))),
        full_scale(m) ==> full_scale(begun(m, controls, input).matcher),
        full_scale(m) ==> frame_ceiling(heard(m, input.peak)) <= single::ONE,
{
}

proof fn controls_keep_full_scale(m: Matcher, controls: Controls, readings: ControlReadings)
    requires
        full_scale(m),
        readings.target_peak <= single::ONE,
    ensures
        full_scale(synchronized(m, controls, readings)),
        full_scale(cleared(m, controls, readings)),
{
}

/// A new engine with a target at or below full scale measures nothing yet, and
/// has every ceiling at or below full scale.
pub proof fn engines_begin_at_full_scale(
    timing: Timing,
    window_frames: nat,
    locked_db: u32,
    gain_linear: u32,
    gain_double: u64,
    target: Target,
)
    requires
        target.peak <= single::ONE,
    ensures
        ({
            let m = initial(
                timing,
                window_frames,
                locked_db,
                gain_linear,
                gain_double,
                target,
            );
            &&& full_scale(m)
            &&& m.state == MatchState::Ready
            &&& !m.requested
        }),
{
}

/// Whatever happens to an engine, every ceiling stays at or below full scale.
pub proof fn ceilings_stay_at_full_scale(m: Matcher, steps: Seq<Step>)
    requires
        full_scale(m),
        sound_steps(m, steps),
    ensures
        full_scale(played(m, steps)),
    decreases steps.len(),
{
    if steps.len() > 0 {
        ceilings_stay_at_full_scale(m, steps.drop_last());
        let before = played(m, steps.drop_last());
        match steps.last() {
            Step::Begin { controls, readings } => {
                controls_keep_full_scale(unmetered(before), controls, readings);
            },
            Step::Follow { controls, readings } => {
                controls_keep_full_scale(before, controls, readings);
            },
            Step::Clear { controls, readings } => {
                controls_keep_full_scale(before, controls, readings);
            },
            Step::Frame { controls, input, replies } => {
                a_frame_starts_under_its_ceiling(before, controls, input);
                a_run_keeps_under(
                    begun(before, controls, input),
                    input,
                    replies,
                    frame_ceiling(heard(before, input.peak)),
                );
            },
        }
    }
}

/// No output sample ever goes beyond full scale, and none beyond the target peak
/// while Peak mode measures and nothing fades down.
pub proof fn output_stays_at_full_scale(
    m: Matcher,
    steps: Seq<Step>,
    controls: Controls,
    input: FrameInput,
    replies: Seq<Reply>,
)
    requires
        full_scale(m),
        sound_steps(m, steps),
        sound_run(begun(played(m, steps), controls, input), input, replies),
    ensures
        match run(begun(played(m, steps), controls, input), input, replies).stage {
            Stage::Done { left, right } => {
                let now = heard(played(m, steps), input.peak);
                &&& single::magnitude(left) <= single::ONE
                &&& single::magnitude(right) <= single::ONE
                &&& !now.measurement_rms_mode && now.state == MatchState::Measuring && !faded(
                    now,
                ).fading_out ==> {
                    &&& single::magnitude(left) <= now.target.peak
                    &&& single::magnitude(right) <= now.target.peak
                }
            },
            _ => true,
        },
{
    ceilings_stay_at_full_scale(m, steps);
    finished_frames_stay_under_their_ceiling(played(m, steps), controls, input, replies);
}

/// Whether following the controls begins a fresh measurement.
pub open spec fn begins(m: Matcher, controls: Controls, readings: ControlReadings) -> bool {
    controls.match_requested && (!m.requested || m.rms_mode != controls.rms_mode || (m.state
        == MatchState::Measuring && starts_over(m, controls, readings)))
}

/// Whether a usable sample was heard since the last measurement began.
pub open spec fn heard_since_start(m: Matcher, steps: Seq<Step>) -> bool
    decreases steps.len(),
{
    if steps.len() == 0 {
        false
    } else {
        let before = played(m, steps.drop_last());
        let signal = heard_since_start(m, steps.drop_last());
        match steps.last() {
            Step::Begin { controls, readings } => signal && !begins(before, controls, readings),
            Step::Follow { controls, readings } => signal && !begins(before, controls, readings),
            Step::Clear { controls, readings } => false,
            Step::Frame { controls, input, replies } => signal || usable(input.peak),
        }
    }
}

/// Whether the evidence of a measurement is that of a signal, or of silence.
pub open spec fn evidence_of(m: Matcher, signal: bool) -> bool {
    &&& sound_buckets(m.peaks)
    &&& sound_buckets(m.levels)
    &&& if signal {
        !m.force_update && usable(m.measurement_level)
    } else {
        &&& m.force_update
        &&& m.measurement_level == single::ZERO
        &&& !usable(highest(m.peaks))
        &&& highest(m.levels) == single::ZERO
    }
}

/// Where the evidence of an open measurement stands in the middle of a frame,
/// `signal` telling whether a usable sample was heard, this frame counted.
pub open spec fn gathering(scene: Scene, peak: u32, signal: bool) -> bool {
    let m = scene.matcher;
    match scene.stage {
        Stage::InputSums | Stage::InputRoot => signal && (evidence_of(m, true) || (evidence_of(
            m,
            false,
        ) && usable(peak))),
        Stage::Evaluate { first_complete_rms } => {
            &&& sound_buckets(m.peaks)
            &&& sound_buckets(m.levels)
            &&& if signal {
                evidence_of(m, true) || (m.force_update && usable(highest(m.peaks)))
            } else {
                evidence_of(m, false)
            }
        },
        Stage::Publish(candidate) | Stage::PublishFactor(candidate, _) => {
            &&& sound_buckets(m.peaks)
            &&& sound_buckets(m.levels)
            &&& signal
            &&& !m.force_update
            &&& usable(candidate.level)
        },
        _ => evidence_of(m, signal),
    }
}

proof fn noting_levels_gathers(
    m: Matcher,
    controls: Controls,
    peak: u32,
    measured: bool,
    level: u32,
    signal: bool,
)
    requires
        m.state == MatchState::Measuring,
        single::is_level(peak),
        evidence_of(m, true) && signal || evidence_of(m, false) && signal == usable(peak),
        !measured ==> level == single::ZERO,
        evidence_of(m, false) && !usable(peak) ==> !measured,
    ensures
        ({
            let (stage, matcher) = levels_noted(m, peak, measured, level);
            gathering(Scene { stage, matcher, controls }, peak, signal)
        }),
{
    buckets_stay_sound(m.peaks, peak);
    if single::is_level(level) {
        buckets_stay_sound(m.levels, level);
    }
    let after = evidenced(m, peak, measured, level);
    buckets_stay_sound(after.peaks, peak);
    buckets_stay_sound(after.levels, peak);
}

proof fn hearing_a_frame_gathers(m: Matcher, controls: Controls, input: FrameInput, signal: bool)
    requires
        m.state == MatchState::Measuring,
        single::is_level(input.peak),
        evidence_of(m, signal),
    ensures
        gathering(begun(m, controls, input), input.peak, signal || usable(input.peak)),
        begun(m, controls, input).matcher.state == MatchState::Measuring,
{
    buckets_stay_sound(m.peaks, input.peak);
    let after = heard(m, input.peak);
    if !window_open(after, input.peak) {
        noting_levels_gathers(
            after,
            controls,
            input.peak,
            false,
            single::ZERO,
            signal || usable(input.peak),
        );
    }
}

proof fn a_reply_gathers(scene: Scene, input: FrameInput, reply: Reply, signal: bool)
    requires
        scene.matcher.state == MatchState::Measuring,
        single::is_level(input.peak),
        gathering(scene, input.peak, signal),
        sound(scene, reply),
    ensures
        gathering(replied(scene, input, reply), input.peak, signal),
        replied(scene, input, reply).matcher.state == MatchState::Measuring,
{
    let m = scene.matcher;
    match (scene.stage, reply) {
        (Stage::InputSums, Reply::Sums(sums)) => {
            let after = Matcher {
                input: m.input.updated(sums.squares, sums.sum, sums.compensation),
                rms_frames: counted(m.rms_frames),
                ..m
            };
            noting_levels_gathers(
                after,
                scene.controls,
                input.peak,
                true,
                single::ZERO,
                signal,
            );
        },
        (Stage::InputRoot, Reply::Number(root)) => {
            noting_levels_gathers(m, scene.controls, input.peak, true, root, signal);
        },
        (Stage::Evaluate { first_complete_rms }, Reply::Readings(readings)) => {
            buckets_stay_sound(m.peaks, input.peak);
            buckets_stay_sound(m.levels, input.peak);
        },
        (Stage::PublishFactor(candidate, gain_db), Reply::Double(factor)) => {
            buckets_stay_sound(m.peaks, input.peak);
            buckets_stay_sound(m.levels, input.peak);
        },
        _ => {},
    }
}

proof fn a_run_gathers(scene: Scene, input: FrameInput, replies: Seq<Reply>, signal: bool)
    requires
        scene.matcher.state == MatchState::Measuring,
        single::is_level(input.peak),
        gathering(scene, input.peak, signal),
        sound_run(scene, input, replies),
    ensures
        gathering(run(scene, input, replies), input.peak, signal),
        run(scene, input, replies).matcher.state == MatchState::Measuring,
    decreases replies.len(),
{
    if replies.len() > 0 {
        a_run_gathers(scene, input, replies.drop_last(), signal);
        a_reply_gathers(run(scene, input, replies.drop_last()), input, replies.last(), signal);
    }
}

proof fn a_run_keeps_the_state(scene: Scene, input: FrameInput, replies: Seq<Reply>)
    ensures
        run(scene, input, replies).matcher.state == scene.matcher.state,
    decreases replies.len(),
{
    if replies.len() > 0 {
        a_run_keeps_the_state(scene, input, replies.drop_last());
        frames_only_publish_a_gain(
            run(scene, input, replies.drop_last()),
            input,
            replies.last(),
        );
    }
}

proof fn controls_keep_the_evidence(
    m: Matcher,
    controls: Controls,
    readings: ControlReadings,
    signal: bool,
)
    requires
        m.state == MatchState::Measuring ==> evidence_of(m, signal),
    ensures
        ({
            let after = synchronized(m, controls, readings);
            after.state == MatchState::Measuring ==> evidence_of(
                after,
                signal && !begins(m, controls, readings),
            )
        }),
{
    assert(sound_buckets(silent_buckets()));
    buckets_stay_sound(silent_buckets(), single::ZERO);
}

proof fn evidence_tells_what_was_heard(m: Matcher, steps: Seq<Step>)
    requires
        m.state != MatchState::Measuring,
        sound_steps(m, steps),
    ensures
        played(m, steps).state == MatchState::Measuring ==> evidence_of(
            played(m, steps),
            heard_since_start(m, steps),
        ),
    decreases steps.len(),
{
    if steps.len() > 0 {
        evidence_tells_what_was_heard(m, steps.drop_last());
        let before = played(m, steps.drop_last());
        let signal = heard_since_start(m, steps.drop_last());
        match steps.last() {
            Step::Begin { controls, readings } => {
                controls_keep_the_evidence(unmetered(before), controls, readings, signal);
            },
            Step::Follow { controls, readings } => {
                controls_keep_the_evidence(before, controls, readings, signal);
            },
            Step::Clear { controls, readings } => {},
            Step::Frame { controls, input, replies } => {
                let scene = begun(before, controls, input);
                a_run_keeps_the_state(scene, input, replies);
                if before.state == MatchState::Measuring {
                    hearing_a_frame_gathers(before, controls, input, signal);
                    a_run_gathers(scene, input, replies, signal || usable(input.peak));
                }
            },
        }
    }
}

/// Switching Match off locks the gain exactly where a usable sample was heard
/// since the last start, and ends without a signal otherwise.
pub proof fn measurements_end_by_whether_a_signal_was_heard(
    m: Matcher,
    steps: Seq<Step>,
    controls: Controls,
    readings: ControlReadings,
)
    requires
        m.state != MatchState::Measuring,
        sound_steps(m, steps),
        played(m, steps).requested,
        played(m, steps).state == MatchState::Measuring,
        !controls.match_requested,
    ensures
        synchronized(played(m, steps), controls, readings).state == (if heard_since_start(
            m,
            steps,
        ) {
            MatchState::Locked
        } else {
            MatchState::NoSignal
        }),
{
    evidence_tells_what_was_heard(m, steps);
}

/// Steps inside one block.
pub open spec fn within_block(steps: Seq<Step>) -> bool {
    forall|i: int| 0 <= i < steps.len() ==> (#[trigger] steps[i]) is Frame || steps[i] is Follow
}

/// The input peaks of the frames among some steps.
pub open spec fn input_peaks(steps: Seq<Step>) -> Seq<u32>
    decreases steps.len(),
{
    if steps.len() == 0 {
        Seq::empty()
    } else {
        let before = input_peaks(steps.drop_last());
        match steps.last() {
            Step::Frame { controls, input, replies } => before.push(input.peak),
            _ => before,
        }
    }
}

/// The higher of the two absolute samples of a finished frame.
pub open spec fn output_peak(stage: Stage) -> u32 {
    match stage {
        Stage::Done { left, right } => single::larger(
            single::absolute(left),
            single::absolute(right),
        ),
        _ => single::ZERO,
    }
}

/// The output peaks of the frames among some steps.
pub open spec fn output_peaks(m: Matcher, steps: Seq<Step>) -> Seq<u32>
    decreases steps.len(),
{
    if steps.len() == 0 {
        Seq::empty()
    } else {
        let before = output_peaks(m, steps.drop_last());
        match steps.last() {
            Step::Frame { controls, input, replies } => before.push(
                output_peak(
                    run(
                        begun(played(m, steps.drop_last()), controls, input),
                        input,
                        replies,
                    ).stage,
                ),
            ),
            _ => before,
        }
    }
}

proof fn a_reply_meters_its_output(scene: Scene, input: FrameInput, reply: Reply)
    ensures
        ({
            let after = replied(scene, input, reply);
            let block = scene.matcher.block;
            &&& scene.stage is Done ==> after == scene
            &&& !(scene.stage is Done) ==> after.matcher.block == if after.stage is Done {
                BlockPeaks {
                    output: single::larger(block.output, output_peak(after.stage)),
                    ..block
                }
            } else {
                block
            }
        }),
{
}

proof fn a_run_meters_its_output(scene: Scene, input: FrameInput, replies: Seq<Reply>)
    requires
        !(scene.stage is Done),
    ensures
        ({
            let after = run(scene, input, replies);
            let block = scene.matcher.block;
            after.matcher.block == if after.stage is Done {
                BlockPeaks {
                    output: single::larger(block.output, output_peak(after.stage)),
                    ..block
                }
            } else {
                block
            }
        }),
    decreases replies.len(),
{
    if replies.len() > 0 {
        a_run_meters_its_output(scene, input, replies.drop_last());
        a_reply_meters_its_output(
            run(scene, input, replies.drop_last()),
            input,
            replies.last(),
        );
    }
}

proof fn the_larger_level_is_the_highest(levels: Seq<u32>, level: u32)
    requires
        single::is_level(highest(levels)),
        single::is_level(level),
    ensures
        highest(levels.push(level)) == single::larger(highest(levels), level),
        single::is_level(highest(levels.push(level))),
{
    assert(levels.push(level).drop_last() =~= levels);
}

proof fn block_peaks_are_maxima(m: Matcher, steps: Seq<Step>)
    requires
        m.block == (BlockPeaks { input: single::ZERO, output: single::ZERO }),
        full_scale(m),
        within_block(steps),
        sound_steps(m, steps),
    ensures
        single::is_level(highest(input_peaks(steps))),
        single::is_level(highest(output_peaks(m, steps))),
        played(m, steps).block == (BlockPeaks {
            input: highest(input_peaks(steps)),
            output: highest(output_peaks(m, steps)),
        }),
    decreases steps.len(),
{
    if steps.len() > 0 {
        let shorter = steps.drop_last();
        assert forall|i: int| 0 <= i < shorter.len() implies (#[trigger] shorter[i]) is Frame
            || shorter[i] is Follow by {
            assert(shorter[i] == steps[i]);
        }
        block_peaks_are_maxima(m, shorter);
        let before = played(m, shorter);
        assert(steps[steps.len() - 1] == steps.last());
        if let Step::Frame { controls, input, replies } = steps.last() {
            let scene = begun(before, controls, input);
            let stage = run(scene, input, replies).stage;
            output_stays_at_full_scale(m, shorter, controls, input, replies);
            a_frame_begins_by_metering_its_input(before, controls, input);
            a_run_meters_its_output(scene, input, replies);
            the_larger_level_is_the_highest(input_peaks(shorter), input.peak);
            the_larger_level_is_the_highest(output_peaks(m, shorter), output_peak(stage));
        }
    }
}

proof fn a_frame_begins_by_metering_its_input(m: Matcher, controls: Controls, input: FrameInput)
    ensures
        !(begun(m, controls, input).stage is Done),
        begun(m, controls, input).matcher.block == (BlockPeaks {
            input: single::larger(m.block.input, input.peak),
            ..m.block
        }),
{
}

/// The peaks that a report is made of are the highest ones of all frames since
/// the block began, whatever controls were followed in between.
pub proof fn reports_cover_the_whole_block(
    m: Matcher,
    controls: Controls,
    readings: ControlReadings,
    steps: Seq<Step>,
)
    requires
        full_scale(m),
        readings.target_peak <= single::ONE,
        within_block(steps),
        sound_steps(stepped(m, Step::Begin { controls, readings }), steps),
    ensures
        ({
            let opened = stepped(m, Step::Begin { controls, readings });
            played(opened, steps).block == (BlockPeaks {
                input: highest(input_peaks(steps)),
                output: highest(output_peaks(opened, steps)),
            })
        }),
{
    controls_keep_full_scale(unmetered(m), controls, readings);
    block_peaks_are_maxima(stepped(m, Step::Begin { controls, readings }), steps);
}

/// Whether an engine is about to fade down what was last heard.
pub open spec fn takes_up_next(m: Matcher, last: LastOutput) -> bool {
    &&& m.last == last
    &&& m.fade.out_position == single::ZERO
    &&& m.fade.out_gain == last.gain
    &&& m.fade.out_ceiling == last.ceiling
}

/// Whether a frame is on its way to fade down what was last heard.
pub open spec fn takes_up(scene: Scene, last: LastOutput) -> bool {
    let untouched = takes_up_next(scene.matcher, last);
    match scene.stage {
        Stage::Allow(frame_fade) | Stage::Guard(frame_fade, _) => untouched
            && frame_fade.fading_out,
        Stage::Attenuate(_, _, _) | Stage::FadeMatched(_, _) => false,
        Stage::FadeOutgoing | Stage::Scale { .. } => true,
        Stage::OutputSums { .. } | Stage::Done { .. } => true,
        _ => untouched,
    }
}

proof fn a_reply_takes_up_what_was_heard(
    scene: Scene,
    input: FrameInput,
    reply: Reply,
    last: LastOutput,
)
    requires
        takes_up(scene, last),
    ensures
        takes_up(replied(scene, input, reply), last),
        replied(scene, input, reply).matcher.timing == scene.matcher.timing,
{
}

proof fn a_run_takes_up_what_was_heard(
    scene: Scene,
    input: FrameInput,
    replies: Seq<Reply>,
    last: LastOutput,
)
    requires
        takes_up(scene, last),
    ensures
        takes_up(run(scene, input, replies), last),
        run(scene, input, replies).matcher.timing == scene.matcher.timing,
    decreases replies.len(),
{
    if replies.len() > 0 {
        let before = run(scene, input, replies.drop_last());
        a_run_takes_up_what_was_heard(scene, input, replies.drop_last(), last);
        a_reply_takes_up_what_was_heard(before, input, replies.last(), last);
    }
}

proof fn taking_up_goes_on(scene: Scene, input: FrameInput, quotient: u32, last: LastOutput)
    requires
        takes_up(scene, last),
    ensures
        goes_on_from(scene, input, quotient, last),
{
}

proof fn a_start_takes_up_what_was_heard(
    m: Matcher,
    controls: Controls,
    readings: ControlReadings,
)
    requires
        begins(m, controls, readings),
        usable(m.last.peak),
    ensures
        takes_up_next(synchronized(m, controls, readings), m.last),
        synchronized(m, controls, readings).timing == m.timing,
{
}

proof fn hearing_again_takes_up_the_same(m: Matcher, peak: u32, last: LastOutput)
    requires
        takes_up_next(m, last),
        usable(last.peak),
    ensures
        takes_up_next(heard(m, peak), last),
{
}

proof fn a_frame_takes_up_what_was_heard(
    m: Matcher,
    controls: Controls,
    input: FrameInput,
    last: LastOutput,
)
    requires
        takes_up_next(heard(m, input.peak), last),
    ensures
        takes_up(begun(m, controls, input), last),
        begun(m, controls, input).matcher.timing == m.timing,
{
}

/// Whether a frame goes on from what was last heard. It never takes the way of
/// the matched signal: it asks what the ceiling that was last heard allows, and
/// then for a falling fade from its very beginning, under that ceiling, with the
/// gain that was last heard, held to what the ceiling allows.
pub open spec fn goes_on_from(
    scene: Scene,
    input: FrameInput,
    quotient: u32,
    last: LastOutput,
) -> bool {
    let held = replied(scene, input, Reply::Number(quotient));
    &&& !(scene.stage is Attenuate)
    &&& !(scene.stage is FadeMatched)
    &&& scene.stage is HoldOutgoing ==> {
        &&& asked(scene.stage, scene.matcher, input) == Some(
            Ask::Quotient { dividend: last.ceiling, divisor: input.peak },
        )
        &&& asked(held.stage, held.matcher, input) == Some(
            Ask::Faded {
                falling: true,
                position: single::ZERO,
                step: scene.matcher.timing.fade_out_step,
                gain: if single::below(single::ZERO, input.peak) {
                    single::smaller(last.gain, quotient)
                } else {
                    last.gain
                },
                ceiling: last.ceiling,
                left: input.left,
                right: input.right,
            },
        )
    }
}

/// Match that starts, or starts over, while something is heard goes on from what
/// is heard: so does the first frame afterwards, at whatever reply it stands.
pub proof fn starting_over_goes_on_from_what_is_heard(
    m: Matcher,
    controls: Controls,
    readings: ControlReadings,
    frame_controls: Controls,
    input: FrameInput,
    replies: Seq<Reply>,
    quotient: u32,
)
    requires
        begins(m, controls, readings),
        usable(m.last.peak),
    ensures
        ({
            let fresh = synchronized(m, controls, readings);
            let scene = run(begun(fresh, frame_controls, input), input, replies);
            &&& scene.matcher.timing == m.timing
            &&& goes_on_from(scene, input, quotient, m.last)
        }),
{
    let fresh = synchronized(m, controls, readings);
    let scene = begun(fresh, frame_controls, input);
    a_start_takes_up_what_was_heard(m, controls, readings);
    hearing_again_takes_up_the_same(fresh, input.peak, m.last);
    a_frame_takes_up_what_was_heard(fresh, frame_controls, input, m.last);
    a_run_takes_up_what_was_heard(scene, input, replies, m.last);
    taking_up_goes_on(run(scene, input, replies), input, quotient, m.last);
}

/// A signal after a long silence, which starts an RMS measurement over, goes on
/// from what is heard in the same way.
pub proof fn a_new_signal_goes_on_from_what_is_heard(
    m: Matcher,
    controls: Controls,
    input: FrameInput,
    replies: Seq<Reply>,
    quotient: u32,
)
    requires
        m.state == MatchState::Measuring,
        m.rms_mode,
        usable(input.peak),
        m.quiet_frames >= m.timing.silence_frames,
        usable(m.last.peak),
    ensures
        ({
            let scene = run(begun(m, controls, input), input, replies);
            &&& scene.matcher.timing == m.timing
            &&& goes_on_from(scene, input, quotient, m.last)
        }),
{
    let scene = begun(m, controls, input);
    a_frame_takes_up_what_was_heard(m, controls, input, m.last);
    a_run_takes_up_what_was_heard(scene, input, replies, m.last);
    taking_up_goes_on(run(scene, input, replies), input, quotient, m.last);
}

/// A reply that steps a fade forwards: an answered step leads beyond the position
/// that it was asked for.
pub open spec fn forward(scene: Scene, reply: Reply) -> bool {
    match (scene.stage, reply) {
        (Stage::FadeUp, Reply::Number(stepped)) => single::below(
            scene.matcher.fade.in_position,
            stepped,
        ),
        (Stage::FadeOutgoing, Reply::Faded(numbers)) => single::below(
            scene.matcher.fade.out_position,
            numbers.stepped,
        ),
        _ => true,
    }
}

/// Replies that all step the fades forwards.
pub open spec fn forward_run(scene: Scene, input: FrameInput, replies: Seq<Reply>) -> bool
    decreases replies.len(),
{
    replies.len() == 0 || {
        &&& forward_run(scene, input, replies.drop_last())
        &&& forward(run(scene, input, replies.drop_last()), replies.last())
    }
}

/// Frames that are all answered to their end, and step the fades forwards.
pub open spec fn forward_frames(m: Matcher, steps: Seq<Step>) -> bool
    decreases steps.len(),
{
    steps.len() == 0 || {
        &&& forward_frames(m, steps.drop_last())
        &&& steps.last() matches Step::Frame { controls, input, replies } && {
            let scene = begun(played(m, steps.drop_last()), controls, input);
            forward_run(scene, input, replies) && run(scene, input, replies).stage is Done
        }
    }
}

/// Where a position stands after some steps forwards: at its end, or further on
/// by at least as many patterns.
pub open spec fn came_forward(start: u32, now: u32, frames: int) -> bool {
    &&& now <= single::ONE
    &&& now == single::ONE || now >= start + frames
}

/// Where the fade up stands in the middle of a frame.
spec fn fading_up(scene: Scene, start: u32) -> bool {
    let m = scene.matcher;
    &&& m.state != MatchState::Measuring
    &&& !single::below(m.fade.out_position, single::ONE)
    &&& match scene.stage {
        Stage::Smooth | Stage::FadeUp => m.fade.in_position == start,
        Stage::Allow(fade) | Stage::Guard(fade, _) => !fade.fading_out && came_forward(
            start,
            m.fade.in_position,
            1,
        ),
        Stage::Attenuate(_, _, _) | Stage::FadeMatched(_, _) => came_forward(
            start,
            m.fade.in_position,
            1,
        ),
        Stage::Scale { .. } | Stage::OutputSums { .. } | Stage::Done { .. } => came_forward(
            start,
            m.fade.in_position,
            1,
        ),
        _ => false,
    }
}

proof fn a_reply_fades_up(scene: Scene, input: FrameInput, reply: Reply, start: u32)
    requires
        start <= single::ONE,
        fading_up(scene, start),
        forward(scene, reply),
    ensures
        fading_up(replied(scene, input, reply), start),
{
}

proof fn a_run_fades_up(scene: Scene, input: FrameInput, replies: Seq<Reply>, start: u32)
    requires
        start <= single::ONE,
        fading_up(scene, start),
        forward_run(scene, input, replies),
    ensures
        fading_up(run(scene, input, replies), start),
    decreases replies.len(),
{
    if replies.len() > 0 {
        a_run_fades_up(scene, input, replies.drop_last(), start);
        a_reply_fades_up(run(scene, input, replies.drop_last()), input, replies.last(), start);
    }
}

proof fn a_quiet_frame_begins_with_the_gain(m: Matcher, controls: Controls, input: FrameInput)
    requires
        m.state != MatchState::Measuring,
    ensures
        begun(m, controls, input).stage == Stage::Smooth,
        begun(m, controls, input).matcher.fade == m.fade,
        begun(m, controls, input).matcher.state == m.state,
{
}

/// The fade up finishes without a measurement: after Match was switched off, be
/// the gain locked or no signal found, every frame brings it forwards, until it
/// has reached 1.0, where it stays.
pub proof fn the_fade_up_finishes(m: Matcher, steps: Seq<Step>)
    requires
        m.state != MatchState::Measuring,
        !single::below(m.fade.out_position, 0x3f80_0000),
        m.fade.in_position <= 0x3f80_0000,
        forward_frames(m, steps),
    ensures
        played(m, steps).state != MatchState::Measuring,
        !single::below(played(m, steps).fade.out_position, 0x3f80_0000),
        came_forward(
            m.fade.in_position,
            played(m, steps).fade.in_position,
            steps.len() as int,
        ),
        m.fade.in_position == 0x3f80_0000 || m.fade.in_position + steps.len() >= 0x3f80_0000
            ==> played(m, steps).fade.in_position == 0x3f80_0000,
    decreases steps.len(),
{
    if steps.len() > 0 {
        the_fade_up_finishes(m, steps.drop_last());
        let before = played(m, steps.drop_last());
        if let Step::Frame { controls, input, replies } = steps.last() {
            a_quiet_frame_begins_with_the_gain(before, controls, input);
            a_run_fades_up(
                begun(before, controls, input),
                input,
                replies,
                before.fade.in_position,
            );
        }
    }
}

/// Where the fade down stands in the middle of a frame.
spec fn fading_down(scene: Scene, start: u32) -> bool {
    let m = scene.matcher;
    &&& m.state != MatchState::Measuring || !m.rms_mode
    &&& if start < single::ONE {
        match scene.stage {
            Stage::Allow(fade) | Stage::Guard(fade, _) => fade.fading_out && m.fade.out_position
                == start,
            Stage::Attenuate(_, _, _) | Stage::FadeMatched(_, _) => false,
            Stage::Scale { .. } | Stage::OutputSums { .. } | Stage::Done { .. } => came_forward(
                start,
                m.fade.out_position,
                1,
            ),
            _ => m.fade.out_position == start,
        }
    } else {
        m.fade.out_position == start && match scene.stage {
            Stage::Allow(fade) | Stage::Guard(fade, _) => !fade.fading_out,
            Stage::HoldOutgoing | Stage::FadeOutgoing => false,
            _ => true,
        }
    }
}

proof fn a_reply_fades_down(scene: Scene, input: FrameInput, reply: Reply, start: u32)
    requires
        start <= single::ONE,
        fading_down(scene, start),
        forward(scene, reply),
    ensures
        fading_down(replied(scene, input, reply), start),
{
}

proof fn a_run_fades_down(scene: Scene, input: FrameInput, replies: Seq<Reply>, start: u32)
    requires
        start <= single::ONE,
        fading_down(scene, start),
        forward_run(scene, input, replies),
    ensures
        fading_down(run(scene, input, replies), start),
    decreases replies.len(),
{
    if replies.len() > 0 {
        a_run_fades_down(scene, input, replies.drop_last(), start);
        a_reply_fades_down(run(scene, input, replies.drop_last()), input, replies.last(), start);
    }
}

proof fn a_frame_begins_its_fade_down(m: Matcher, controls: Controls, input: FrameInput)
    requires
        m.state != MatchState::Measuring || !m.rms_mode,
        m.fade.out_position <= single::ONE,
    ensures
        fading_down(begun(m, controls, input), m.fade.out_position),
{
}

/// The fade down finishes: unless an RMS measurement starts over, every frame
/// brings it forwards, until it has reached 1.0, where it stays.
pub proof fn the_fade_down_finishes(m: Matcher, steps: Seq<Step>)
    requires
        m.state != MatchState::Measuring || !m.rms_mode,
        m.fade.out_position <= 0x3f80_0000,
        forward_frames(m, steps),
    ensures
        played(m, steps).state != MatchState::Measuring || !played(m, steps).rms_mode,
        came_forward(
            m.fade.out_position,
            played(m, steps).fade.out_position,
            steps.len() as int,
        ),
    decreases steps.len(),
{
    if steps.len() > 0 {
        the_fade_down_finishes(m, steps.drop_last());
        let before = played(m, steps.drop_last());
        if let Step::Frame { controls, input, replies } = steps.last() {
            a_frame_begins_its_fade_down(before, controls, input);
            a_run_fades_down(
                begun(before, controls, input),
                input,
                replies,
                before.fade.out_position,
            );
        }
    }
}

} // verus!
