//! One frame through the engine, as a conversation: the frame asks for the
//! arithmetic that it needs next, and goes on with the reply.
//!
//! A caller starts a [`Frame`] with [`GainSnapEngine::process_frame`], answers
//! [`Frame::ask`] with [`Frame::reply`] until nothing is asked any more, and takes
//! the output samples from [`Frame::output`].
use vstd::prelude::*;

use crate::double;
use crate::dsp::{allowed_gain, protect, publishable_gain_db, GainSnapEngine};
use crate::history::{buckets_stay_sound, highest, highest_is_the_maximum, sound_buckets};
use crate::matcher::{
    advanced, allowed, candidate_level, candidate_of, decided, evidenced, fade_advanced, faded,
    heard, negated, published, published_db, published_gain_is_in_range, settled, takes_effect, usable, window_counts,
    window_open, BlockPeaks, Candidate, CandidateReadings, Fade, FrameFade, FrameInput, Gain,
    LastOutput, Matcher, Observation,
};
use crate::params::{with_param, Controls, GainSnapParams, PARAM_LOCKED_GAIN_DB};
use crate::single;
use crate::status::MatchState;

verus! {

/// Arithmetic that a frame needs.
#[derive(Clone, Copy, Debug, PartialEq, Eq)]
pub enum Ask {
    /// Square both samples, and exchange the outgoing squares for the new ones
    /// in the compensated sums. Answered by [`Reply::Sums`].
    Sums {
        /// Left sample.
        left: u32,
        /// Right sample.
        right: u32,
        /// Squares that leave the window.
        outgoing: (u64, u64),
        /// Running sums.
        sum: (u64, u64),
        /// What the running sums lost to rounding.
        compensation: (u64, u64),
    },
    /// The root mean square of the louder channel. Answered by
    /// [`Reply::Number`].
    Root {
        /// Running sums.
        sum: (u64, u64),
        /// What the running sums lost to rounding.
        compensation: (u64, u64),
        /// Frames in the window.
        count: usize,
    },
    /// The quotients and products of [`CandidateReadings`]. Answered by
    /// [`Reply::Readings`].
    Readings {
        /// Linear target peak.
        target_peak: u32,
        /// Candidate level.
        level: u32,
        /// Highest recent peak.
        peak: u32,
        /// Gain of the stability anchor.
        anchor_gain: u32,
        /// Level of the stability anchor.
        anchor_level: u32,
    },
    /// A factor in decibels. Answered by [`Reply::Number`].
    Decibels {
        /// The factor.
        factor: u32,
    },
    /// Decibels as a factor, in double precision. Answered by [`Reply::Double`].
    Factor {
        /// The decibels.
        decibels: u32,
    },
    /// A share of the way from one value to another, added to the first.
    /// Answered by [`Reply::Double`].
    Approach {
        /// First value.
        from: u64,
        /// Second value.
        to: u64,
        /// The share.
        share: u64,
    },
    /// A position plus a step. Answered by [`Reply::Number`].
    Step {
        /// The position.
        position: u32,
        /// The step.
        step: u32,
    },
    /// A quotient. Answered by [`Reply::Number`].
    Quotient {
        /// The dividend.
        dividend: u32,
        /// The divisor.
        divisor: u32,
    },
    /// What the peak guard needs: the gain in single precision, the attenuation
    /// from it to the allowed gain, and the guard after one frame of recovery.
    /// Answered by [`Reply::Guard`].
    Guard {
        /// Smoothed gain.
        smoothed: u64,
        /// Highest allowed gain.
        allowed: u32,
        /// Attenuation of the guard.
        guard: u64,
        /// Share of the way to unity that the guard recovers.
        release: u64,
    },
    /// A gain times an attenuation. Answered by [`Reply::Number`].
    Attenuated {
        /// The gain.
        gain: u32,
        /// The attenuation.
        guard: u64,
    },
    /// The smooth fade factor at a position, falling or rising; the samples
    /// times the gain; the gain and the ceiling times the factor; and, for a
    /// falling fade, the position plus the step. Answered by [`Reply::Faded`].
    Faded {
        /// Whether the factor falls from 1.0 to 0.0, not rises.
        falling: bool,
        /// Position of the fade.
        position: u32,
        /// Step of the fade.
        step: u32,
        /// Gain of the samples.
        gain: u32,
        /// Ceiling of the samples.
        ceiling: u32,
        /// Left sample.
        left: u32,
        /// Right sample.
        right: u32,
    },
    /// Both samples times a factor. Answered by [`Reply::Pair`].
    Scaled {
        /// Left sample.
        left: u32,
        /// Right sample.
        right: u32,
        /// The factor.
        factor: u32,
    },
}

/// Numbers of an answered [`Ask::Sums`].
#[derive(Clone, Copy, Debug, PartialEq, Eq)]
pub struct Sums {
    /// Squares of the two samples.
    pub squares: (u64, u64),
    /// Running sums.
    pub sum: (u64, u64),
    /// What the running sums lost to rounding.
    pub compensation: (u64, u64),
}

/// Numbers of an answered [`Ask::Guard`].
#[derive(Clone, Copy, Debug, PartialEq, Eq, Structural)]
pub struct GuardNumbers {
    /// The gain in single precision.
    pub desired: u32,
    /// The allowed gain divided by it, in double precision.
    pub ratio: u64,
    /// The guard after one frame of recovery.
    pub recovered: u64,
}

/// Numbers of an answered [`Ask::Faded`].
#[derive(Clone, Copy, Debug, PartialEq, Eq, Structural)]
pub struct FadedNumbers {
    /// The fade factor.
    pub factor: u32,
    /// The left sample times the gain.
    pub left: u32,
    /// The right sample times the gain.
    pub right: u32,
    /// The gain times the factor.
    pub gain: u32,
    /// The ceiling times the factor.
    pub ceiling: u32,
    /// The position plus the step.
    pub stepped: u32,
}

/// Result of the arithmetic that was asked for.
#[derive(Clone, Copy, Debug, PartialEq, Eq)]
pub enum Reply {
    /// Answers [`Ask::Sums`].
    Sums(Sums),
    /// A single-precision number.
    Number(u32),
    /// A double-precision number.
    Double(u64),
    /// Answers [`Ask::Readings`].
    Readings(CandidateReadings),
    /// Answers [`Ask::Guard`].
    Guard(GuardNumbers),
    /// Answers [`Ask::Faded`].
    Faded(FadedNumbers),
    /// Answers [`Ask::Scaled`]: left, then right.
    Pair(u32, u32),
}

/// Where a frame stands.
#[derive(Clone, Copy, Debug, PartialEq, Eq, Structural)]
pub enum Stage {
    /// The input goes into the RMS window.
    InputSums,
    /// The RMS window is complete.
    InputRoot,
    /// The evidence is evaluated.
    Evaluate {
        /// Whether this is the first complete RMS window.
        first_complete_rms: bool,
    },
    /// A candidate takes effect.
    Publish(Candidate),
    /// The candidate's gain is known in decibels.
    PublishFactor(Candidate, u32),
    /// The gain is smoothed.
    Smooth,
    /// The fade up moves on.
    FadeUp,
    /// The allowed gain is found.
    Allow(FrameFade),
    /// The peak guard moves on.
    Guard(FrameFade, u32),
    /// The guarded gain is found, from the allowed gain and the desired one.
    Attenuate(FrameFade, u32, u32),
    /// The gain of the outgoing signal is bounded.
    HoldOutgoing,
    /// The outgoing signal is faded.
    FadeOutgoing,
    /// The matched signal is faded, with its applied gain.
    FadeMatched(FrameFade, u32),
    /// Protected samples are scaled by the fade factor.
    Scale {
        /// Left sample.
        left: u32,
        /// Right sample.
        right: u32,
        /// The factor.
        factor: u32,
    },
    /// The output goes into its RMS window.
    OutputSums {
        /// Left sample.
        left: u32,
        /// Right sample.
        right: u32,
    },
    /// The frame is done.
    Done {
        /// Left sample.
        left: u32,
        /// Right sample.
        right: u32,
    },
}

/// A frame, its engine and the controls.
#[verifier::ext_equal]
pub struct Scene {
    /// Where the frame stands.
    pub stage: Stage,
    /// The engine.
    pub matcher: Matcher,
    /// The controls.
    pub controls: Controls,
}

/// The arithmetic that is asked for at a stage.
pub open spec fn asked(stage: Stage, m: Matcher, input: FrameInput) -> Option<Ask> {
    match stage {
        Stage::InputSums => Some(
            Ask::Sums {
                left: input.left,
                right: input.right,
                outgoing: m.input.outgoing(),
                sum: m.input.sum,
                compensation: m.input.compensation,
            },
        ),
        Stage::InputRoot => Some(
            Ask::Root {
                sum: m.input.sum,
                compensation: m.input.compensation,
                count: m.input.squares.len() as usize,
            },
        ),
        Stage::Evaluate { first_complete_rms } => Some(
            Ask::Readings {
                target_peak: m.target.peak,
                level: candidate_level(m),
                peak: highest(m.peaks),
                anchor_gain: m.stability.anchor_gain,
                anchor_level: m.stability.anchor_level,
            },
        ),
        Stage::Publish(candidate) => Some(Ask::Decibels { factor: candidate.gain }),
        Stage::PublishFactor(candidate, gain_db) => Some(
            Ask::Factor { decibels: published_db(gain_db) },
        ),
        Stage::Smooth => Some(
            Ask::Approach {
                from: m.gain.current,
                to: m.gain.target,
                share: if double::below(m.gain.current, m.gain.target) {
                    m.timing.increase_coefficient
                } else {
                    m.timing.reduction_coefficient
                },
            },
        ),
        Stage::FadeUp => Some(
            Ask::Step { position: m.fade.in_position, step: m.timing.fade_in_step },
        ),
        Stage::Allow(fade) => Some(Ask::Quotient { dividend: fade.ceiling, divisor: input.peak }),
        Stage::Guard(fade, allowed) => Some(
            Ask::Guard {
                smoothed: m.gain.current,
                allowed,
                guard: m.gain.guard,
                release: m.timing.release_coefficient,
            },
        ),
        Stage::Attenuate(fade, limit, desired) => Some(
            Ask::Attenuated { gain: desired, guard: m.gain.guard },
        ),
        Stage::HoldOutgoing => Some(
            Ask::Quotient { dividend: m.fade.out_ceiling, divisor: input.peak },
        ),
        Stage::FadeOutgoing => Some(
            Ask::Faded {
                falling: true,
                position: m.fade.out_position,
                step: m.timing.fade_out_step,
                gain: m.fade.out_gain,
                ceiling: m.fade.out_ceiling,
                left: input.left,
                right: input.right,
            },
        ),
        Stage::FadeMatched(fade, gain) => Some(
            Ask::Faded {
                falling: false,
                position: fade.position,
                step: single::ZERO,
                gain,
                ceiling: fade.ceiling,
                left: input.left,
                right: input.right,
            },
        ),
        Stage::Scale { left, right, factor } => Some(Ask::Scaled { left, right, factor }),
        Stage::OutputSums { left, right } => Some(
            Ask::Sums {
                left,
                right,
                outgoing: m.output.outgoing(),
                sum: m.output.sum,
                compensation: m.output.compensation,
            },
        ),
        Stage::Done { left, right } => None,
    }
}

/// The frame after its levels were noted: an evaluation, or on to the gain.
pub open spec fn levels_noted(m: Matcher, peak: u32, measured: bool, level: u32) -> (Stage, Matcher) {
    if m.state != MatchState::Measuring {
        (Stage::Smooth, m)
    } else {
        let after = evidenced(m, peak, measured, level);
        if peak > highest(m.peaks) || usable(candidate_level(after)) {
            let first_complete_rms = window_counts(m, measured) && usable(level)
                && !m.candidate_seen;
            (Stage::Evaluate { first_complete_rms }, after)
        } else {
            (Stage::Smooth, advanced(after))
        }
    }
}

/// The frame after its input was heard.
pub open spec fn started(m: Matcher, peak: u32) -> (Stage, Matcher) {
    let after = heard(m, peak);
    if window_open(after, peak) {
        (Stage::InputSums, after)
    } else {
        levels_noted(after, peak, false, single::ZERO)
    }
}

/// The attenuation that the guard has to reach at once.
pub open spec fn required(allowed: u32, numbers: GuardNumbers) -> u64 {
    if single::below(allowed, numbers.desired) {
        numbers.ratio
    } else {
        double::ONE
    }
}

/// The frame after a reply; one that does not answer what was asked changes
/// nothing.
pub open spec fn replied(scene: Scene, input: FrameInput, reply: Reply) -> Scene {
    let m = scene.matcher;
    match (scene.stage, reply) {
        (Stage::InputSums, Reply::Sums(sums)) => {
            let after = Matcher {
                input: m.input.updated(sums.squares, sums.sum, sums.compensation),
                rms_frames: crate::matcher::counted(m.rms_frames),
                ..m
            };
            let (stage, matcher) = if after.input.complete() {
                (Stage::InputRoot, after)
            } else {
                levels_noted(after, input.peak, true, single::ZERO)
            };
            Scene { stage, matcher, ..scene }
        },
        (Stage::InputRoot, Reply::Number(root)) => {
            let (stage, matcher) = levels_noted(m, input.peak, true, root);
            Scene { stage, matcher, ..scene }
        },
        (Stage::Evaluate { first_complete_rms }, Reply::Readings(readings)) => {
            let after = decided(m, input.peak, first_complete_rms, readings);
            if takes_effect(m, input.peak, first_complete_rms, readings) {
                Scene { stage: Stage::Publish(candidate_of(m, readings)), matcher: after, ..scene }
            } else {
                Scene { stage: Stage::Smooth, matcher: advanced(after), ..scene }
            }
        },
        (Stage::Publish(candidate), Reply::Number(gain_db)) => Scene {
            stage: Stage::PublishFactor(candidate, gain_db),
            ..scene
        },
        (Stage::PublishFactor(candidate, gain_db), Reply::Double(factor)) => Scene {
            stage: Stage::Smooth,
            matcher: advanced(published(m, candidate, gain_db, factor)),
            controls: with_param(scene.controls, PARAM_LOCKED_GAIN_DB, published_db(gain_db)),
        },
        (Stage::Smooth, Reply::Double(next)) => Scene {
            stage: Stage::FadeUp,
            matcher: settled(m, next),
            ..scene
        },
        (Stage::FadeUp, Reply::Number(stepped)) => Scene {
            stage: Stage::Allow(faded(m)),
            matcher: fade_advanced(m, stepped),
            ..scene
        },
        (Stage::Allow(fade), Reply::Number(quotient)) => Scene {
            stage: Stage::Guard(fade, allowed(input.peak, quotient)),
            ..scene
        },
        (Stage::Guard(fade, limit), Reply::Guard(numbers)) => Scene {
            stage: if fade.fading_out {
                Stage::HoldOutgoing
            } else {
                Stage::Attenuate(fade, limit, numbers.desired)
            },
            matcher: Matcher {
                gain: Gain {
                    guard: double::smaller(required(limit, numbers), numbers.recovered),
                    ..m.gain
                },
                ..m
            },
            ..scene
        },
        (Stage::Attenuate(fade, limit, desired), Reply::Number(attenuated)) => Scene {
            stage: Stage::FadeMatched(fade, single::smaller(attenuated, limit)),
            ..scene
        },
        (Stage::HoldOutgoing, Reply::Number(quotient)) => Scene {
            stage: Stage::FadeOutgoing,
            matcher: Matcher {
                fade: Fade {
                    out_gain: if single::below(single::ZERO, input.peak) {
                        single::smaller(m.fade.out_gain, quotient)
                    } else {
                        m.fade.out_gain
                    },
                    ..m.fade
                },
                ..m
            },
            ..scene
        },
        (Stage::FadeOutgoing, Reply::Faded(numbers)) => Scene {
            stage: protected(numbers, m.fade.out_ceiling),
            matcher: Matcher {
                fade: Fade {
                    out_position: single::smaller(numbers.stepped, single::ONE),
                    ..m.fade
                },
                last: LastOutput { gain: numbers.gain, ceiling: numbers.ceiling, ..m.last },
                ..m
            },
            ..scene
        },
        (Stage::FadeMatched(fade, gain), Reply::Faded(numbers)) => Scene {
            stage: protected(numbers, fade.ceiling),
            matcher: Matcher {
                last: LastOutput { gain: numbers.gain, ceiling: numbers.ceiling, ..m.last },
                ..m
            },
            ..scene
        },
        (Stage::Scale { left, right, factor }, Reply::Pair(scaled_left, scaled_right)) => Scene {
            stage: Stage::OutputSums { left: scaled_left, right: scaled_right },
            ..scene
        },
        (Stage::OutputSums { left, right }, Reply::Sums(sums)) => {
            let peak = single::larger(single::absolute(left), single::absolute(right));
            Scene {
                stage: Stage::Done { left, right },
                matcher: Matcher {
                    output: m.output.updated(sums.squares, sums.sum, sums.compensation),
                    last: LastOutput { peak, ..m.last },
                    block: BlockPeaks { output: single::larger(m.block.output, peak), ..m.block },
                    ..m
                },
                ..scene
            }
        },
        _ => scene,
    }
}

/// The stage of samples that were bounded to their ceiling. The samples are
/// bounded before they are faded: a strong input must not reach the ceiling
/// while the fade is still low.
pub open spec fn protected(numbers: FadedNumbers, ceiling: u32) -> Stage {
    Stage::Scale {
        left: single::clamped(numbers.left, negated(ceiling), ceiling),
        right: single::clamped(numbers.right, negated(ceiling), ceiling),
        factor: numbers.factor,
    }
}

/// A frame on its way through the engine.
#[derive(Clone, Copy, Debug)]
pub struct Frame {
    stage: Stage,
    input: FrameInput,
}

impl Frame {
    /// Where the frame stands.
    pub closed spec fn stage(&self) -> Stage {
        self.stage
    }

    /// The input samples.
    pub closed spec fn input(&self) -> FrameInput {
        self.input
    }

    /// The frame's invariant: its peak is a level.
    pub closed spec fn wf(&self) -> bool {
        single::is_level(self.input.peak)
    }

    /// The frame with an engine and controls.
    pub open spec fn scene(&self, matcher: Matcher, controls: Controls) -> Scene {
        Scene { stage: self.stage(), matcher, controls }
    }

    fn note_levels(&mut self, engine: &mut GainSnapEngine, measured: bool, level: u32)
        requires
            old(self).wf(),
            old(engine).wf(),
        ensures
            final(self).wf(),
            final(engine).wf(),
            final(self).input() == old(self).input(),
            (final(self).stage(), final(engine)@) == levels_noted(
                old(engine)@,
                old(self).input().peak,
                measured,
                level,
            ),
    {
        let observation: Observation = engine.observe_measurement(
            self.input.peak,
            measured,
            level,
        );
        if observation.evaluate {
            self.stage = Stage::Evaluate {
                first_complete_rms: observation.first_complete_rms,
            };
        } else {
            engine.advance_measurement_history();
            self.stage = Stage::Smooth;
        }
    }

    /// The arithmetic that the frame needs next.
    pub fn ask(&self, engine: &GainSnapEngine) -> (result: Option<Ask>)
        requires
            engine.wf(),
        ensures
            result == asked(self.stage(), engine@, self.input()),
    {
        match self.stage {
            Stage::InputSums => Some(
                Ask::Sums {
                    left: self.input.left,
                    right: self.input.right,
                    outgoing: engine.input_rms().outgoing(),
                    sum: engine.input_rms().sum(),
                    compensation: engine.input_rms().compensation(),
                },
            ),
            Stage::InputRoot => Some(
                Ask::Root {
                    sum: engine.input_rms().sum(),
                    compensation: engine.input_rms().compensation(),
                    count: engine.input_rms().count(),
                },
            ),
            Stage::Evaluate { first_complete_rms } => Some(
                Ask::Readings {
                    target_peak: engine.target().peak,
                    level: engine.measurement_candidate_level(),
                    peak: engine.rolling_measurement_peak(),
                    anchor_gain: engine.stability().anchor_gain,
                    anchor_level: engine.stability().anchor_level,
                },
            ),
            Stage::Publish(candidate) => Some(Ask::Decibels { factor: candidate.gain }),
            Stage::PublishFactor(candidate, gain_db) => Some(
                Ask::Factor { decibels: publishable_gain_db(gain_db) },
            ),
            Stage::Smooth => Some(
                Ask::Approach {
                    from: engine.gain().current,
                    to: engine.gain().target,
                    share: engine.gain_coefficient(),
                },
            ),
            Stage::FadeUp => Some(
                Ask::Step {
                    position: engine.fade().in_position,
                    step: engine.timing().fade_in_step,
                },
            ),
            Stage::Allow(fade) => Some(
                Ask::Quotient { dividend: fade.ceiling, divisor: self.input.peak },
            ),
            Stage::Guard(fade, limit) => Some(
                Ask::Guard {
                    smoothed: engine.gain().current,
                    allowed: limit,
                    guard: engine.gain().guard,
                    release: engine.timing().release_coefficient,
                },
            ),
            Stage::Attenuate(fade, limit, desired) => Some(
                Ask::Attenuated { gain: desired, guard: engine.gain().guard },
            ),
            Stage::HoldOutgoing => Some(
                Ask::Quotient { dividend: engine.fade().out_ceiling, divisor: self.input.peak },
            ),
            Stage::FadeOutgoing => {
                let fade: Fade = engine.fade();
                Some(
                    Ask::Faded {
                        falling: true,
                        position: fade.out_position,
                        step: engine.timing().fade_out_step,
                        gain: fade.out_gain,
                        ceiling: fade.out_ceiling,
                        left: self.input.left,
                        right: self.input.right,
                    },
                )
            },
            Stage::FadeMatched(fade, gain) => Some(
                Ask::Faded {
                    falling: false,
                    position: fade.position,
                    step: single::ZERO,
                    gain,
                    ceiling: fade.ceiling,
                    left: self.input.left,
                    right: self.input.right,
                },
            ),
            Stage::Scale { left, right, factor } => Some(Ask::Scaled { left, right, factor }),
            Stage::OutputSums { left, right } => Some(
                Ask::Sums {
                    left,
                    right,
                    outgoing: engine.output_rms().outgoing(),
                    sum: engine.output_rms().sum(),
                    compensation: engine.output_rms().compensation(),
                },
            ),
            Stage::Done { left, right } => None,
        }
    }

    /// Go on with the result of what was asked.
    pub fn reply(&mut self, engine: &mut GainSnapEngine, params: &mut GainSnapParams, reply: Reply)
        requires
            old(self).wf(),
            old(engine).wf(),
        ensures
            final(self).wf(),
            final(engine).wf(),
            final(self).input() == old(self).input(),
            final(self).scene(final(engine)@, final(params)@) == replied(
                old(self).scene(old(engine)@, old(params)@),
                old(self).input(),
                reply,
            ),
    {
        match (self.stage, reply) {
            (Stage::InputSums, Reply::Sums(sums)) => {
                engine.record_input(sums.squares, sums.sum, sums.compensation);
                if engine.input_rms().complete() {
                    self.stage = Stage::InputRoot;
                } else {
                    self.note_levels(engine, true, single::ZERO);
                }
            },
            (Stage::InputRoot, Reply::Number(root)) => {
                self.note_levels(engine, true, root);
            },
            (Stage::Evaluate { first_complete_rms }, Reply::Readings(readings)) => {
                match engine.consider_measurement_candidate(
                    self.input.peak,
                    first_complete_rms,
                    readings,
                ) {
                    Some(candidate) => {
                        self.stage = Stage::Publish(candidate);
                    },
                    None => {
                        engine.advance_measurement_history();
                        self.stage = Stage::Smooth;
                    },
                }
            },
            (Stage::Publish(candidate), Reply::Number(gain_db)) => {
                self.stage = Stage::PublishFactor(candidate, gain_db);
            },
            (Stage::PublishFactor(candidate, gain_db), Reply::Double(factor)) => {
                engine.publish_measurement_gain(params, candidate, gain_db, factor);
                engine.advance_measurement_history();
                self.stage = Stage::Smooth;
            },
            (Stage::Smooth, Reply::Double(next)) => {
                engine.settle_gain(next);
                self.stage = Stage::FadeUp;
            },
            (Stage::FadeUp, Reply::Number(stepped)) => {
                let fade: FrameFade = engine.advance_fade(stepped);
                self.stage = Stage::Allow(fade);
            },
            (Stage::Allow(fade), Reply::Number(quotient)) => {
                self.stage = Stage::Guard(fade, allowed_gain(self.input.peak, quotient));
            },
            (Stage::Guard(fade, limit), Reply::Guard(numbers)) => {
                let needed: u64 = if single::less(limit, numbers.desired) {
                    numbers.ratio
                } else {
                    double::ONE
                };
                engine.settle_guard(needed, numbers.recovered);
                self.stage = if fade.fading_out {
                    Stage::HoldOutgoing
                } else {
                    Stage::Attenuate(fade, limit, numbers.desired)
                };
            },
            (Stage::Attenuate(fade, limit, desired), Reply::Number(attenuated)) => {
                self.stage = Stage::FadeMatched(fade, single::min(attenuated, limit));
            },
            (Stage::HoldOutgoing, Reply::Number(quotient)) => {
                engine.hold_fade_out_gain(self.input.peak, quotient);
                self.stage = Stage::FadeOutgoing;
            },
            (Stage::FadeOutgoing, Reply::Faded(numbers)) => {
                let ceiling: u32 = engine.fade().out_ceiling;
                engine.finish_fade_out(numbers.stepped, numbers.gain, numbers.ceiling);
                self.stage = Stage::Scale {
                    left: protect(numbers.left, ceiling),
                    right: protect(numbers.right, ceiling),
                    factor: numbers.factor,
                };
            },
            (Stage::FadeMatched(fade, gain), Reply::Faded(numbers)) => {
                engine.finish_fade_in(numbers.gain, numbers.ceiling);
                self.stage = Stage::Scale {
                    left: protect(numbers.left, fade.ceiling),
                    right: protect(numbers.right, fade.ceiling),
                    factor: numbers.factor,
                };
            },
            (Stage::Scale { left, right, factor }, Reply::Pair(scaled_left, scaled_right)) => {
                self.stage = Stage::OutputSums { left: scaled_left, right: scaled_right };
            },
            (Stage::OutputSums { left, right }, Reply::Sums(sums)) => {
                engine.record_output(left, right, sums.squares, sums.sum, sums.compensation);
                self.stage = Stage::Done { left, right };
            },
            _ => {},
        }
    }

    /// The output samples of a frame that is done.
    pub fn output(&self) -> (result: Option<(u32, u32)>)
        ensures
            result == (match self.stage() {
                Stage::Done { left, right } => Some((left, right)),
                _ => None,
            }),
    {
        match self.stage {
            Stage::Done { left, right } => Some((left, right)),
            _ => None,
        }
    }
}

impl GainSnapEngine {
    /// Start to process a frame with its input samples; what is not finite counts
    /// as 0.0. The frame asks for arithmetic until its output is known.
    pub fn process_frame(&mut self, input_left: u32, input_right: u32) -> (result: Frame)
        requires
            old(self).wf(),
        ensures
            result.wf(),
            final(self).wf(),
            result.input().left == (if single::finite(input_left) {
                input_left
            } else {
                single::ZERO
            }),
            result.input().right == (if single::finite(input_right) {
                input_right
            } else {
                single::ZERO
            }),
            result.input().peak == single::larger(
                single::absolute(result.input().left),
                single::absolute(result.input().right),
            ),
            single::finite(input_left) ==> result.input().left == input_left,
            single::finite(input_right) ==> result.input().right == input_right,
            single::finite(result.input().left),
            single::finite(result.input().right),
            single::magnitude(result.input().left) <= result.input().peak,
            single::magnitude(result.input().right) <= result.input().peak,
            result.input().peak == single::magnitude(result.input().left) || result.input().peak
                == single::magnitude(result.input().right),
            (result.stage(), final(self)@) == started(old(self)@, result.input().peak),
    {
        let input: FrameInput = self.observe_input(input_left, input_right);
        let mut frame = Frame { stage: Stage::InputSums, input };
        if !input.measures_rms {
            frame.note_levels(self, false, single::ZERO);
        }
        frame
    }
}

/// How far a frame is from its end.
pub open spec fn steps_left(stage: Stage) -> nat {
    match stage {
        Stage::InputSums => 14,
        Stage::InputRoot => 13,
        Stage::Evaluate { first_complete_rms } => 12,
        Stage::Publish(candidate) => 11,
        Stage::PublishFactor(candidate, gain_db) => 10,
        Stage::Smooth => 9,
        Stage::FadeUp => 8,
        Stage::Allow(fade) => 7,
        Stage::Guard(fade, limit) => 6,
        Stage::Attenuate(fade, limit, desired) => 5,
        Stage::HoldOutgoing => 4,
        Stage::FadeOutgoing => 3,
        Stage::FadeMatched(fade, gain) => 3,
        Stage::Scale { left, right, factor } => 2,
        Stage::OutputSums { left, right } => 1,
        Stage::Done { left, right } => 0,
    }
}

/// Whether a reply answers what was asked.
pub open spec fn answers(ask: Ask, reply: Reply) -> bool {
    match ask {
        Ask::Sums { left, right, outgoing, sum, compensation } => reply is Sums,
        Ask::Root { sum, compensation, count } => reply is Number,
        Ask::Readings { target_peak, level, peak, anchor_gain, anchor_level } => reply is Readings,
        Ask::Decibels { factor } => reply is Number,
        Ask::Factor { decibels } => reply is Double,
        Ask::Approach { from, to, share } => reply is Double,
        Ask::Step { position, step } => reply is Number,
        Ask::Quotient { dividend, divisor } => reply is Number,
        Ask::Guard { smoothed, allowed, guard, release } => reply is Guard,
        Ask::Attenuated { gain, guard } => reply is Number,
        Ask::Faded { falling, position, step, gain, ceiling, left, right } => reply is Faded,
        Ask::Scaled { left, right, factor } => reply is Pair,
    }
}

/// Every frame ends: each answer brings it closer to its end, and nothing else
/// changes it.
pub proof fn answers_bring_a_frame_closer_to_its_end(scene: Scene, input: FrameInput, reply: Reply)
    ensures
        asked(scene.stage, scene.matcher, input) is None <==> scene.stage is Done,
        match asked(scene.stage, scene.matcher, input) {
            Some(ask) => if answers(ask, reply) {
                steps_left(replied(scene, input, reply).stage) < steps_left(scene.stage)
            } else {
                replied(scene, input, reply) == scene
            },
            None => replied(scene, input, reply) == scene,
        },
{
}

/// A frame never switches Match, never moves the target, and changes the
/// controls only by the gain that a measurement publishes.
pub proof fn frames_only_publish_a_gain(scene: Scene, input: FrameInput, reply: Reply)
    ensures
        ({
            let after = replied(scene, input, reply);
            &&& after.controls == (Controls {
                locked_gain_db: after.controls.locked_gain_db,
                ..scene.controls
            })
            &&& after.controls != scene.controls ==> scene.stage is PublishFactor
            &&& after.matcher.state == scene.matcher.state
            &&& after.matcher.requested == scene.matcher.requested
            &&& after.matcher.target == scene.matcher.target
            &&& after.matcher.timing == scene.matcher.timing
        }),
{
}

/// Without an open measurement a frame gathers no evidence and publishes
/// nothing.
pub proof fn frames_measure_only_while_measuring(m: Matcher, peak: u32)
    requires
        m.state != MatchState::Measuring,
    ensures
        started(m, peak).0 == Stage::Smooth,
        started(m, peak).1.peaks == m.peaks,
        started(m, peak).1.levels == m.levels,
        started(m, peak).1.input == m.input,
        started(m, peak).1.gain == m.gain,
{
}

/// Samples reach the fade inside their ceiling: that of the outgoing signal
/// while it fades down, that of the matched signal otherwise.
pub proof fn samples_are_bounded_before_they_fade(
    scene: Scene,
    input: FrameInput,
    numbers: FadedNumbers,
)
    requires
        scene.stage is FadeOutgoing || scene.stage is FadeMatched,
        !single::nan(numbers.left),
        !single::nan(numbers.right),
    ensures
        ({
            let ceiling = match scene.stage {
                Stage::FadeMatched(fade, gain) => fade.ceiling,
                _ => scene.matcher.fade.out_ceiling,
            };
            single::is_level(ceiling) ==> match replied(scene, input, Reply::Faded(numbers)).stage {
                Stage::Scale { left, right, factor } => single::magnitude(left) <= ceiling
                    && single::magnitude(right) <= ceiling,
                _ => false,
            }
        }),
{
}

/// The outgoing signal never gets louder while it fades down, and its gain stays
/// below what its ceiling allows.
pub proof fn outgoing_gain_never_rises(scene: Scene, input: FrameInput, quotient: u32)
    requires
        scene.stage is HoldOutgoing,
        !single::nan(scene.matcher.fade.out_gain),
        !single::nan(quotient),
    ensures
        ({
            let after = replied(scene, input, Reply::Number(quotient)).matcher.fade.out_gain;
            &&& single::at_most(after, scene.matcher.fade.out_gain)
            &&& single::below(single::ZERO, input.peak) ==> single::at_most(after, quotient)
        }),
{
}

/// A measured frame is evaluated exactly where its peak is the highest recent
/// one or the measured level is a signal, as it stands with the frame noted; the
/// first complete RMS window is the first usable one. Every other frame goes on
/// to the gain, after the histories moved on.
pub proof fn measured_frames_are_evaluated(m: Matcher, peak: u32, measured: bool, level: u32)
    requires
        sound_buckets(m.peaks),
        sound_buckets(m.levels),
        single::is_level(peak),
        m.state == MatchState::Measuring,
    ensures
        ({
            let (stage, after) = levels_noted(m, peak, measured, level);
            let noted = evidenced(m, peak, measured, level);
            let new_peak = forall|i: int| 0 <= i < m.peaks.len() ==> #[trigger] m.peaks[i] < peak;
            let evaluates = (peak > 0 && new_peak) || candidate_level(noted) > 0x3586_37bd;
            let first = measured && m.rms_mode && m.rms_frames > 0 && m.input.squares.len()
                == m.input.capacity && single::below(0x3586_37bd, level) && !m.candidate_seen;
            &&& evaluates ==> stage == (Stage::Evaluate { first_complete_rms: first }) && after
                == noted
            &&& !evaluates ==> stage == Stage::Smooth && after == advanced(noted)
        }),
{
    buckets_stay_sound(m.peaks, peak);
    highest_is_the_maximum(m.peaks);
    if single::is_level(level) {
        buckets_stay_sound(m.levels, level);
    }
    let noted = evidenced(m, peak, measured, level);
    buckets_stay_sound(noted.peaks, peak);
    buckets_stay_sound(noted.levels, peak);
}

/// A frame begins with the RMS window where that is open, and otherwise with its
/// peak alone, as evidence of a measurement or straight on to the gain.
pub proof fn frames_begin_with_what_was_heard(m: Matcher, peak: u32)
    ensures
        ({
            let now = heard(m, peak);
            &&& window_open(now, peak) ==> started(m, peak) == (Stage::InputSums, now)
            &&& !window_open(now, peak) && m.state == MatchState::Measuring ==> started(m, peak)
                == levels_noted(now, peak, false, single::ZERO)
            &&& m.state != MatchState::Measuring ==> started(m, peak) == (Stage::Smooth, now)
        }),
{
}

/// The RMS window takes the frame in; its level counts once it is complete.
pub proof fn windows_count_once_complete(scene: Scene, input: FrameInput, sums: Sums, root: u32)
    requires
        scene.stage == Stage::InputSums,
        scene.matcher.input.capacity > 0,
        scene.matcher.input.squares.len() <= scene.matcher.input.capacity,
    ensures
        ({
            let m = scene.matcher;
            let taken = replied(scene, input, Reply::Sums(sums));
            let counted_frames = if m.rms_frames < u64::MAX {
                (m.rms_frames + 1) as u64
            } else {
                m.rms_frames
            };
            let with_frame = Matcher {
                input: m.input.updated(sums.squares, sums.sum, sums.compensation),
                rms_frames: counted_frames,
                ..m
            };
            let full = m.input.squares.len() + 1 >= m.input.capacity;
            &&& taken.controls == scene.controls
            &&& full ==> taken.stage == Stage::InputRoot && taken.matcher == with_frame
            &&& !full ==> (taken.stage, taken.matcher) == levels_noted(
                with_frame,
                input.peak,
                true,
                0,
            )
            &&& full ==> ({
                let rooted = replied(taken, input, Reply::Number(root));
                &&& (rooted.stage, rooted.matcher) == levels_noted(
                    with_frame,
                    input.peak,
                    true,
                    root,
                )
                &&& rooted.controls == scene.controls
            })
        }),
{
}

/// An evaluated frame publishes its candidate exactly where that takes effect:
/// in decibels, then as a factor, into the engine and into the controls. Either
/// way the histories move on and the frame goes on to the gain.
pub proof fn candidates_that_take_effect_are_published(
    scene: Scene,
    input: FrameInput,
    readings: CandidateReadings,
    gain_db: u32,
    factor: u64,
)
    requires
        scene.stage is Evaluate,
    ensures
        ({
            let m = scene.matcher;
            let first = scene.stage->first_complete_rms;
            let after = decided(m, input.peak, first, readings);
            let read = replied(scene, input, Reply::Readings(readings));
            let named = replied(read, input, Reply::Number(gain_db));
            let end = replied(named, input, Reply::Double(factor));
            if takes_effect(m, input.peak, first, readings) {
                &&& read.stage == Stage::Publish(candidate_of(m, readings))
                &&& asked(read.stage, read.matcher, input) == Some(
                    Ask::Decibels { factor: candidate_of(m, readings).gain },
                )
                &&& asked(named.stage, named.matcher, input) == Some(
                    Ask::Factor { decibels: published_db(gain_db) },
                )
                &&& end.stage == Stage::Smooth
                &&& end.matcher == advanced(
                    published(after, candidate_of(m, readings), gain_db, factor),
                )
                &&& end.controls == (Controls {
                    locked_gain_db: published_db(gain_db),
                    ..scene.controls
                })
            } else {
                &&& read.stage == Stage::Smooth
                &&& read.matcher == advanced(after)
                &&& read.controls == scene.controls
            }
        }),
{
    published_gain_is_in_range(gain_db);
}

/// The peak guard attacks at once and recovers slowly. On a frame whose desired
/// gain exceeds the allowed one, it goes down to their ratio at the latest; on
/// any other it is what it has recovered to, and never more than 1.0. It changes
/// nothing else of the engine.
pub proof fn the_guard_attacks_at_once_and_recovers(
    scene: Scene,
    input: FrameInput,
    numbers: GuardNumbers,
)
    requires
        scene.stage is Guard,
        !double::nan(numbers.ratio),
        !double::nan(numbers.recovered),
    ensures
        ({
            let limit = scene.stage->Guard_1;
            let after = replied(scene, input, Reply::Guard(numbers));
            let guard = after.matcher.gain.guard;
            let exceeds = single::below(limit, numbers.desired);
            &&& exceeds ==> double::at_most(guard, numbers.ratio)
            &&& double::at_most(guard, numbers.recovered)
            &&& exceeds && double::at_most(numbers.ratio, numbers.recovered) ==> guard
                == numbers.ratio
            &&& exceeds && double::below(numbers.recovered, numbers.ratio) ==> guard
                == numbers.recovered
            &&& !exceeds && double::below(numbers.recovered, 0x3ff0_0000_0000_0000) ==> guard
                == numbers.recovered
            &&& !exceeds && !double::below(numbers.recovered, 0x3ff0_0000_0000_0000) ==> guard
                == 0x3ff0_0000_0000_0000
            &&& after.matcher == (Matcher {
                gain: Gain { guard, ..scene.matcher.gain },
                ..scene.matcher
            })
            &&& after.controls == scene.controls
        }),
{
}

/// The answers to what a frame asks from the gain on.
pub struct GainAnswers {
    /// The smoothed gain after its step.
    pub smoothed: u64,
    /// The position of the fade up after its step.
    pub stepped: u32,
    /// The ceiling divided by the peak.
    pub quotient: u32,
    /// The numbers of the guard.
    pub guard: GuardNumbers,
    /// The attenuated gain, or what the ceiling of the outgoing signal allows.
    pub held: u32,
    /// The numbers of the fade.
    pub faded: FadedNumbers,
    /// The faded samples.
    pub samples: (u32, u32),
    /// The sums of the output window.
    pub sums: Sums,
}

/// A frame after a reply, step by step.
#[verifier::opaque]
pub open spec fn after_reply(scene: Scene, input: FrameInput, reply: Reply) -> Scene {
    replied(scene, input, reply)
}

proof fn smoothing_comes_first(m: Matcher, controls: Controls, input: FrameInput, a: GainAnswers)
    ensures
        after_reply(
            Scene { stage: Stage::Smooth, matcher: m, controls },
            input,
            Reply::Double(a.smoothed),
        ) == (Scene { stage: Stage::FadeUp, matcher: settled(m, a.smoothed), controls }),
{
    reveal(after_reply);
}

proof fn the_fade_up_comes_second(m: Matcher, controls: Controls, input: FrameInput, a: GainAnswers)
    ensures
        after_reply(
            Scene { stage: Stage::FadeUp, matcher: m, controls },
            input,
            Reply::Number(a.stepped),
        ) == (Scene {
            stage: Stage::Allow(faded(m)),
            matcher: fade_advanced(m, a.stepped),
            controls,
        }),
{
    reveal(after_reply);
}

proof fn the_allowed_gain_comes_third(
    m: Matcher,
    controls: Controls,
    input: FrameInput,
    fade: FrameFade,
    a: GainAnswers,
)
    ensures
        after_reply(
            Scene { stage: Stage::Allow(fade), matcher: m, controls },
            input,
            Reply::Number(a.quotient),
        ) == (Scene {
            stage: Stage::Guard(fade, allowed(input.peak, a.quotient)),
            matcher: m,
            controls,
        }),
{
    reveal(after_reply);
}

/// The guard's part of a frame, as an engine.
spec fn after_guard(m: Matcher, limit: u32, numbers: GuardNumbers) -> Matcher {
    Matcher {
        gain: Gain {
            guard: double::smaller(required(limit, numbers), numbers.recovered),
            ..m.gain
        },
        ..m
    }
}

proof fn the_guard_comes_fourth(
    m: Matcher,
    controls: Controls,
    input: FrameInput,
    fade: FrameFade,
    limit: u32,
    a: GainAnswers,
)
    ensures
        after_reply(
            Scene { stage: Stage::Guard(fade, limit), matcher: m, controls },
            input,
            Reply::Guard(a.guard),
        ) == (Scene {
            stage: if fade.fading_out {
                Stage::HoldOutgoing
            } else {
                Stage::Attenuate(fade, limit, a.guard.desired)
            },
            matcher: after_guard(m, limit, a.guard),
            controls,
        }),
{
    reveal(after_reply);
}

proof fn the_matched_signal_comes_fifth(
    m: Matcher,
    controls: Controls,
    input: FrameInput,
    fade: FrameFade,
    limit: u32,
    a: GainAnswers,
)
    ensures
        ({
            let gain = single::smaller(a.held, limit);
            let held = after_reply(
                Scene {
                    stage: Stage::Attenuate(fade, limit, a.guard.desired),
                    matcher: m,
                    controls,
                },
                input,
                Reply::Number(a.held),
            );
            let faded = after_reply(held, input, Reply::Faded(a.faded));
            &&& held == (Scene { stage: Stage::FadeMatched(fade, gain), matcher: m, controls })
            &&& faded == (Scene {
                stage: protected(a.faded, fade.ceiling),
                matcher: Matcher {
                    last: LastOutput { gain: a.faded.gain, ceiling: a.faded.ceiling, ..m.last },
                    ..m
                },
                controls,
            })
        }),
{
    reveal(after_reply);
}

/// The outgoing signal with its gain held to what its ceiling allows.
spec fn after_holding(m: Matcher, peak: u32, quotient: u32) -> Matcher {
    Matcher {
        fade: Fade {
            out_gain: if single::below(single::ZERO, peak) {
                single::smaller(m.fade.out_gain, quotient)
            } else {
                m.fade.out_gain
            },
            ..m.fade
        },
        ..m
    }
}

proof fn the_outgoing_signal_comes_fifth(
    m: Matcher,
    controls: Controls,
    input: FrameInput,
    a: GainAnswers,
)
    ensures
        ({
            let after = after_holding(m, input.peak, a.held);
            let held = after_reply(
                Scene { stage: Stage::HoldOutgoing, matcher: m, controls },
                input,
                Reply::Number(a.held),
            );
            let faded = after_reply(held, input, Reply::Faded(a.faded));
            &&& held == (Scene { stage: Stage::FadeOutgoing, matcher: after, controls })
            &&& faded == (Scene {
                stage: protected(a.faded, m.fade.out_ceiling),
                matcher: Matcher {
                    fade: Fade {
                        out_position: single::smaller(a.faded.stepped, single::ONE),
                        ..after.fade
                    },
                    last: LastOutput { gain: a.faded.gain, ceiling: a.faded.ceiling, ..m.last },
                    ..after
                },
                controls,
            })
        }),
{
    reveal(after_reply);
}

proof fn the_samples_come_last(
    scene: Scene,
    input: FrameInput,
    a: GainAnswers,
)
    requires
        scene.stage is Scale,
    ensures
        ({
            let m = scene.matcher;
            let scaled = after_reply(scene, input, Reply::Pair(a.samples.0, a.samples.1));
            let peak = single::larger(
                single::absolute(a.samples.0),
                single::absolute(a.samples.1),
            );
            after_reply(scaled, input, Reply::Sums(a.sums)) == (Scene {
                stage: Stage::Done { left: a.samples.0, right: a.samples.1 },
                matcher: Matcher {
                    output: m.output.updated(a.sums.squares, a.sums.sum, a.sums.compensation),
                    last: LastOutput { peak, ..m.last },
                    block: BlockPeaks { output: single::larger(m.block.output, peak), ..m.block },
                    ..m
                },
                ..scene
            })
        }),
{
    reveal(after_reply);
}

proof fn a_frame_reaches_its_guard(scene: Scene, input: FrameInput, a: GainAnswers)
    requires
        scene.stage == Stage::Smooth,
    ensures
        ({
            let m = scene.matcher;
            let now = settled(m, a.smoothed);
            let fade = faded(now);
            let limit = allowed(input.peak, a.quotient);
            let smoothed = after_reply(scene, input, Reply::Double(a.smoothed));
            let stepped = after_reply(smoothed, input, Reply::Number(a.stepped));
            let allowed = after_reply(stepped, input, Reply::Number(a.quotient));
            let guarded = after_reply(allowed, input, Reply::Guard(a.guard));
            let controls = scene.controls;
            let on = fade_advanced(now, a.stepped);
            &&& smoothed == (Scene { stage: Stage::FadeUp, matcher: now, controls })
            &&& stepped == (Scene { stage: Stage::Allow(fade), matcher: on, controls })
            &&& allowed == (Scene { stage: Stage::Guard(fade, limit), matcher: on, controls })
            &&& guarded == (Scene {
                stage: if fade.fading_out {
                    Stage::HoldOutgoing
                } else {
                    Stage::Attenuate(fade, limit, a.guard.desired)
                },
                matcher: after_guard(on, limit, a.guard),
                controls,
            })
        }),
{
    let now = settled(scene.matcher, a.smoothed);
    let on = fade_advanced(now, a.stepped);
    let limit = allowed(input.peak, a.quotient);
    assert(scene == (Scene {
        stage: Stage::Smooth,
        matcher: scene.matcher,
        controls: scene.controls,
    }));
    smoothing_comes_first(scene.matcher, scene.controls, input, a);
    the_fade_up_comes_second(now, scene.controls, input, a);
    the_allowed_gain_comes_third(on, scene.controls, input, faded(now), a);
    the_guard_comes_fourth(on, scene.controls, input, faded(now), limit, a);
}

/// The scene of a frame whose samples are about to be scaled.
spec fn scaling(scene: Scene, input: FrameInput, a: GainAnswers) -> Scene {
    let smoothed = after_reply(scene, input, Reply::Double(a.smoothed));
    let stepped = after_reply(smoothed, input, Reply::Number(a.stepped));
    let allowed = after_reply(stepped, input, Reply::Number(a.quotient));
    let guarded = after_reply(allowed, input, Reply::Guard(a.guard));
    let held = after_reply(guarded, input, Reply::Number(a.held));
    after_reply(held, input, Reply::Faded(a.faded))
}

proof fn a_frame_reaches_its_samples(scene: Scene, input: FrameInput, a: GainAnswers)
    requires
        scene.stage == Stage::Smooth,
    ensures
        ({
            let now = settled(scene.matcher, a.smoothed);
            let limit = allowed(input.peak, a.quotient);
            let on = after_guard(fade_advanced(now, a.stepped), limit, a.guard);
            let last = LastOutput {
                gain: a.faded.gain,
                ceiling: a.faded.ceiling,
                ..scene.matcher.last
            };
            let held = after_holding(on, input.peak, a.held);
            let outgoing = Fade {
                out_position: single::smaller(a.faded.stepped, single::ONE),
                ..held.fade
            };
            &&& scaling(scene, input, a).stage is Scale
            &&& scaling(scene, input, a).controls == scene.controls
            &&& scaling(scene, input, a).matcher == if faded(now).fading_out {
                Matcher { fade: outgoing, last, ..held }
            } else {
                Matcher { last, ..on }
            }
        }),
{
    let now = settled(scene.matcher, a.smoothed);
    let limit = allowed(input.peak, a.quotient);
    let on = after_guard(fade_advanced(now, a.stepped), limit, a.guard);
    a_frame_reaches_its_guard(scene, input, a);
    the_matched_signal_comes_fifth(on, scene.controls, input, faded(now), limit, a);
    the_outgoing_signal_comes_fifth(on, scene.controls, input, a);
}

/// A frame from the gain to its end.
pub open spec fn finish_of(scene: Scene, input: FrameInput, a: GainAnswers) -> Scene {
    let smoothed = after_reply(scene, input, Reply::Double(a.smoothed));
    let stepped = after_reply(smoothed, input, Reply::Number(a.stepped));
    let allowed = after_reply(stepped, input, Reply::Number(a.quotient));
    let guarded = after_reply(allowed, input, Reply::Guard(a.guard));
    let held = after_reply(guarded, input, Reply::Number(a.held));
    let faded = after_reply(held, input, Reply::Faded(a.faded));
    let scaled = after_reply(faded, input, Reply::Pair(a.samples.0, a.samples.1));
    after_reply(scaled, input, Reply::Sums(a.sums))
}

/// What every frame does from the gain on, whichever signal it puts out: the
/// output is what the faded samples were answered, the meters rise to their
/// peak, the output window takes them in, and the measurement, the target, the
/// mode and the controls stay as they were.
pub proof fn every_frame_ends_with_its_samples(scene: Scene, input: FrameInput, a: GainAnswers)
    requires
        scene.stage == Stage::Smooth,
        !single::nan(a.samples.0),
        !single::nan(a.samples.1),
        !single::nan(scene.matcher.block.output),
        scene.matcher.block.output < single::SIGN,
    ensures
        ({
            let m = scene.matcher;
            let end = finish_of(scene, input, a);
            let after = end.matcher;
            let left = single::magnitude(a.samples.0);
            let right = single::magnitude(a.samples.1);
            &&& end.stage == (Stage::Done { left: a.samples.0, right: a.samples.1 })
            &&& end.controls == scene.controls
            &&& after.last.peak == if left >= right {
                left
            } else {
                right
            }
            &&& after.block.input == m.block.input
            &&& after.block.output == if m.block.output >= after.last.peak {
                m.block.output
            } else {
                after.last.peak
            }
            &&& after.output == m.output.updated(a.sums.squares, a.sums.sum, a.sums.compensation)
            &&& after.last.gain == a.faded.gain
            &&& after.last.ceiling == a.faded.ceiling
            &&& double::finite(a.smoothed) ==> after.gain.current == a.smoothed
                && after.gain.target == m.gain.target && after.gain.locked_db == m.gain.locked_db
            &&& !double::finite(a.smoothed) ==> after.gain.current == 0x3ff0_0000_0000_0000
            &&& after.gain.linear == m.gain.linear
            &&& after == (Matcher {
                gain: after.gain,
                fade: after.fade,
                last: after.last,
                block: after.block,
                output: after.output,
                ..m
            })
        }),
{
    a_frame_reaches_its_samples(scene, input, a);
    the_samples_come_last(scaling(scene, input, a), input, a);
}

/// Where nothing fades down, a frame puts out the matched signal: under the
/// attenuated gain or the allowed one, whichever is lower, faded up from the
/// position at which the frame found the fade. The fade up moves on, the
/// guard attacks and recovers, and the outgoing signal is left alone.
pub proof fn matched_frames_are_guarded_and_faded_up(
    scene: Scene,
    input: FrameInput,
    a: GainAnswers,
)
    requires
        scene.stage == Stage::Smooth,
        single::is_level(input.peak),
        !single::below(scene.matcher.fade.out_position, 0x3f80_0000),
        !single::nan(a.held),
        !single::nan(a.quotient),
        !double::nan(a.guard.ratio),
        !double::nan(a.guard.recovered),
    ensures
        ({
            let m = scene.matcher;
            let now = smoothed_gain(a.smoothed);
            let smoothed = after_reply(scene, input, Reply::Double(a.smoothed));
            let stepped = after_reply(smoothed, input, Reply::Number(a.stepped));
            let allowed = after_reply(stepped, input, Reply::Number(a.quotient));
            let guarded = after_reply(allowed, input, Reply::Guard(a.guard));
            let held = after_reply(guarded, input, Reply::Number(a.held));
            let after = finish_of(scene, input, a).matcher;
            let limit = if input.peak > 0 {
                a.quotient
            } else {
                0x7f7f_ffff
            };
            let exceeds = single::below(limit, a.guard.desired);
            let by_target = !m.measurement_rms_mode && (m.state == MatchState::Measuring
                || single::below(m.fade.in_position, 0x3f80_0000));
            let ceiling = if by_target {
                m.target.peak
            } else {
                0x3f80_0000
            };
            let moves = m.state != MatchState::Measuring || single::below(
                0x3586_37bd,
                highest(m.peaks),
            );
            &&& asked(scene.stage, m, input) == Some(
                Ask::Approach {
                    from: m.gain.current,
                    to: m.gain.target,
                    share: if double::below(m.gain.current, m.gain.target) {
                        m.timing.increase_coefficient
                    } else {
                        m.timing.reduction_coefficient
                    },
                },
            )
            &&& asked(smoothed.stage, smoothed.matcher, input) == Some(
                Ask::Step { position: m.fade.in_position, step: m.timing.fade_in_step },
            )
            &&& asked(stepped.stage, stepped.matcher, input) == Some(
                Ask::Quotient { dividend: ceiling, divisor: input.peak },
            )
            &&& asked(allowed.stage, allowed.matcher, input) == Some(
                Ask::Guard {
                    smoothed: now,
                    allowed: limit,
                    guard: m.gain.guard,
                    release: m.timing.release_coefficient,
                },
            )
            &&& asked(guarded.stage, guarded.matcher, input) == Some(
                Ask::Attenuated { gain: a.guard.desired, guard: after.gain.guard },
            )
            &&& asked(held.stage, held.matcher, input) == Some(
                Ask::Faded {
                    falling: false,
                    position: m.fade.in_position,
                    step: 0,
                    gain: if single::below(limit, a.held) {
                        limit
                    } else {
                        a.held
                    },
                    ceiling,
                    left: input.left,
                    right: input.right,
                },
            )
            &&& after.fade == (Fade { in_position: after.fade.in_position, ..m.fade })
            &&& moves && single::at_most(a.stepped, 0x3f80_0000) ==> after.fade.in_position
                == a.stepped
            &&& moves && !single::at_most(a.stepped, 0x3f80_0000) ==> after.fade.in_position
                == 0x3f80_0000
            &&& !moves ==> after.fade.in_position == m.fade.in_position
            &&& exceeds ==> double::at_most(after.gain.guard, a.guard.ratio)
            &&& double::at_most(after.gain.guard, a.guard.recovered)
            &&& after.gain.guard == a.guard.recovered || after.gain.guard == if exceeds {
                a.guard.ratio
            } else {
                0x3ff0_0000_0000_0000
            }
            &&& !exceeds ==> double::at_most(after.gain.guard, 0x3ff0_0000_0000_0000)
        }),
{
    let now = settled(scene.matcher, a.smoothed);
    let limit = allowed(input.peak, a.quotient);
    let on = after_guard(fade_advanced(now, a.stepped), limit, a.guard);
    a_frame_reaches_its_guard(scene, input, a);
    the_matched_signal_comes_fifth(on, scene.controls, input, faded(now), limit, a);
    a_frame_reaches_its_samples(scene, input, a);
    the_samples_come_last(scaling(scene, input, a), input, a);
}

/// The smoothed gain that a frame goes on with.
pub open spec fn smoothed_gain(smoothed: u64) -> u64 {
    if double::finite(smoothed) {
        smoothed
    } else {
        0x3ff0_0000_0000_0000
    }
}

/// While something fades down, a frame puts out the outgoing signal: under its
/// own gain, which its ceiling can only lower, faded down from the position at
/// which the frame found the fade. That position moves on, the fade up rests,
/// and the guard moves on as ever.
pub proof fn outgoing_frames_are_held_and_faded_down(
    scene: Scene,
    input: FrameInput,
    a: GainAnswers,
)
    requires
        scene.stage == Stage::Smooth,
        single::is_level(input.peak),
        single::below(scene.matcher.fade.out_position, 0x3f80_0000),
        !single::nan(scene.matcher.fade.out_gain),
        !single::nan(a.held),
        !double::nan(a.guard.ratio),
        !double::nan(a.guard.recovered),
    ensures
        ({
            let m = scene.matcher;
            let smoothed = after_reply(scene, input, Reply::Double(a.smoothed));
            let stepped = after_reply(smoothed, input, Reply::Number(a.stepped));
            let allowed = after_reply(stepped, input, Reply::Number(a.quotient));
            let guarded = after_reply(allowed, input, Reply::Guard(a.guard));
            let held = after_reply(guarded, input, Reply::Number(a.held));
            let after = finish_of(scene, input, a).matcher;
            let limit = if input.peak > 0 {
                a.quotient
            } else {
                0x7f7f_ffff
            };
            let exceeds = single::below(limit, a.guard.desired);
            let gain = if input.peak > 0 && single::below(a.held, m.fade.out_gain) {
                a.held
            } else {
                m.fade.out_gain
            };
            &&& asked(guarded.stage, guarded.matcher, input) == Some(
                Ask::Quotient { dividend: m.fade.out_ceiling, divisor: input.peak },
            )
            &&& asked(held.stage, held.matcher, input) == Some(
                Ask::Faded {
                    falling: true,
                    position: m.fade.out_position,
                    step: m.timing.fade_out_step,
                    gain,
                    ceiling: m.fade.out_ceiling,
                    left: input.left,
                    right: input.right,
                },
            )
            &&& after.fade.in_position == m.fade.in_position
            &&& after.fade.out_gain == gain
            &&& after.fade.out_ceiling == m.fade.out_ceiling
            &&& single::at_most(a.faded.stepped, 0x3f80_0000) ==> after.fade.out_position
                == a.faded.stepped
            &&& !single::at_most(a.faded.stepped, 0x3f80_0000) ==> after.fade.out_position
                == 0x3f80_0000
            &&& exceeds ==> double::at_most(after.gain.guard, a.guard.ratio)
            &&& double::at_most(after.gain.guard, a.guard.recovered)
            &&& after.gain.guard == a.guard.recovered || after.gain.guard == if exceeds {
                a.guard.ratio
            } else {
                0x3ff0_0000_0000_0000
            }
            &&& !exceeds ==> double::at_most(after.gain.guard, 0x3ff0_0000_0000_0000)
        }),
{
    let now = settled(scene.matcher, a.smoothed);
    let limit = allowed(input.peak, a.quotient);
    let on = after_guard(fade_advanced(now, a.stepped), limit, a.guard);
    a_frame_reaches_its_guard(scene, input, a);
    the_outgoing_signal_comes_fifth(on, scene.controls, input, a);
    a_frame_reaches_its_samples(scene, input, a);
    the_samples_come_last(scaling(scene, input, a), input, a);
}

/// Before they are scaled by the fade factor, samples inside their ceiling pass
/// unchanged, and samples beyond it are put on it, each on its own side.
pub proof fn samples_pass_or_stop_at_the_ceiling(
    scene: Scene,
    input: FrameInput,
    numbers: FadedNumbers,
)
    requires
        scene.stage is FadeOutgoing || scene.stage is FadeMatched,
        !single::nan(numbers.left),
        !single::nan(numbers.right),
    ensures
        ({
            let ceiling = match scene.stage {
                Stage::FadeMatched(fade, gain) => fade.ceiling,
                _ => scene.matcher.fade.out_ceiling,
            };
            let stage = replied(scene, input, Reply::Faded(numbers)).stage;
            single::is_level(ceiling) ==> {
                &&& stage is Scale
                &&& stage->factor == numbers.factor
                &&& stopped_at(numbers.left, ceiling, stage->Scale_left)
                &&& stopped_at(numbers.right, ceiling, stage->Scale_right)
                &&& asked(stage, scene.matcher, input) == Some(
                    Ask::Scaled {
                        left: stage->Scale_left,
                        right: stage->Scale_right,
                        factor: numbers.factor,
                    },
                )
            }
        }),
{
}

/// Whether a sample passed a ceiling unchanged, or was put on it.
pub open spec fn stopped_at(sample: u32, ceiling: u32, bounded: u32) -> bool {
    &&& single::magnitude(sample) <= ceiling ==> bounded == sample
    &&& single::magnitude(sample) > ceiling ==> single::magnitude(bounded) == ceiling
    &&& single::magnitude(sample) > ceiling && sample < single::SIGN ==> bounded < single::SIGN
    &&& single::magnitude(sample) > ceiling && sample >= single::SIGN ==> bounded >= single::SIGN
}

/// A measurement asks for the window's sums over the samples of the frame and
/// the frame that leaves, for the level of a complete window, and for what the
/// evidence leads to; the output is summed in the same way.
pub proof fn measurements_ask_for_their_evidence(
    m: Matcher,
    input: FrameInput,
    first: bool,
    left: u32,
    right: u32,
)
    requires
        m.input.squares.len() <= usize::MAX,
    ensures
        asked(Stage::InputSums, m, input) == Some(
            Ask::Sums {
                left: input.left,
                right: input.right,
                outgoing: m.input.outgoing(),
                sum: m.input.sum,
                compensation: m.input.compensation,
            },
        ),
        asked(Stage::OutputSums { left, right }, m, input) == Some(
            Ask::Sums {
                left,
                right,
                outgoing: m.output.outgoing(),
                sum: m.output.sum,
                compensation: m.output.compensation,
            },
        ),
        ({
            let root = asked(Stage::InputRoot, m, input);
            &&& root matches Some(Ask::Root { sum, compensation, count })
            &&& sum == m.input.sum
            &&& compensation == m.input.compensation
            &&& count == m.input.squares.len()
        }),
        asked(Stage::Evaluate { first_complete_rms: first }, m, input) == Some(
            Ask::Readings {
                target_peak: m.target.peak,
                level: candidate_level(m),
                peak: highest(m.peaks),
                anchor_gain: m.stability.anchor_gain,
                anchor_level: m.stability.anchor_level,
            },
        ),
{
}

} // verus!
