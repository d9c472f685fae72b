//! Editor logic that does not depend on a toolkit: parameter gestures, target
//! entry, meter smoothing and what counts as a visible change.
use vstd::prelude::*;

use crate::params::{
    gain_bounded, gain_in_range, in_range, param_of, target_in_range, with_param, Controls,
    GainSnapParams, DEFAULT_TARGET_DB, GAIN_MAX_DB, GAIN_MIN_DB, PARAM_LOCKED_GAIN_DB, PARAM_MATCH,
    PARAM_RMS_MODE, PARAM_TARGET_DB, TARGET_MAX_DB, TARGET_MIN_DB,
};
use crate::single;
use crate::status::{GuiStatus, MatchActivity, MatchState, Readings, SILENT_DB};
use crate::text;

verus! {

/// Smallest difference between a target level and its text that is shown:
/// 0.0001 dB.
pub const TARGET_TEXT_SYNC_EPSILON: u32 = 0x38d1_b717;

/// Distance at which a meter jumps to its level: 0.01 dB.
pub const METER_SETTLE_EPSILON_DB: u32 = 0x3c23_d70a;

/// Time in which a meter rises: 0.01 s.
pub const METER_ATTACK_SECONDS: u32 = 0x3c23_d70a;

/// Time in which a meter falls: 0.3 s.
pub const METER_RELEASE_SECONDS: u32 = 0x3e99_999a;

/// Longest time that one meter update covers: 0.1 s.
pub const METER_MAX_ELAPSED_SECONDS: u32 = 0x3dcc_cccd;

/// Step of the arrow keys: 1 dB.
pub const TARGET_KEYBOARD_STEP_DB: u32 = 0x3f80_0000;

/// Step of the arrow keys with Shift held: 0.1 dB.
pub const TARGET_FINE_KEYBOARD_STEP_DB: u32 = 0x3dcc_cccd;

/// One message to the host about a parameter edit.
#[derive(Clone, Copy, Debug, PartialEq, Eq, Structural)]
pub enum EditEvent {
    /// A gesture begins.
    Begin(u32),
    /// A plain value inside a gesture.
    Value(u32, u32),
    /// The gesture ends.
    End(u32),
}

/// A whole gesture: begin, the value as it was stored, end.
pub open spec fn gesture(controls: Controls, id: u32, value: u32) -> Seq<EditEvent> {
    let stored = match param_of(with_param(controls, id, value), id) {
        Some(stored) => stored,
        None => value,
    };
    seq![EditEvent::Begin(id), EditEvent::Value(id, stored), EditEvent::End(id)]
}

/// Store a value in one gesture and report it to the host.
pub fn edit_value(
    params: &mut GainSnapParams,
    events: &mut Vec<EditEvent>,
    id: u32,
    value: u32,
)
    ensures
        final(params)@ == with_param(old(params)@, id, value),
        final(events)@ == old(events)@ + gesture(old(params)@, id, value),
{
    events.push(EditEvent::Begin(id));
    params.set_param(id, value);
    let stored: u32 = match params.get_param(id) {
        Some(stored) => stored,
        None => value,
    };
    events.push(EditEvent::Value(id, stored));
    events.push(EditEvent::End(id));
    assert(events@ =~= old(events)@ + gesture(old(params)@, id, value));
}

/// Switch a flag in one gesture.
pub fn toggle_value(
    params: &mut GainSnapParams,
    events: &mut Vec<EditEvent>,
    id: u32,
    checked: bool,
)
    ensures
        final(params)@ == with_param(old(params)@, id, single::flag(checked)),
        final(events)@ == old(events)@ + gesture(old(params)@, id, single::flag(checked)),
{
    edit_value(params, events, id, single::from_bool(checked));
}

/// Set the gain by hand in one gesture.
pub fn set_manual_gain_db(params: &mut GainSnapParams, events: &mut Vec<EditEvent>, gain_db: u32)
    ensures
        final(params)@ == with_param(
            old(params)@,
            PARAM_LOCKED_GAIN_DB,
            single::clamped(gain_db, GAIN_MIN_DB, GAIN_MAX_DB),
        ),
        final(events)@ == old(events)@ + gesture(
            old(params)@,
            PARAM_LOCKED_GAIN_DB,
            single::clamped(gain_db, GAIN_MIN_DB, GAIN_MAX_DB),
        ),
{
    edit_value(
        params,
        events,
        PARAM_LOCKED_GAIN_DB,
        single::clamp(gain_db, GAIN_MIN_DB, GAIN_MAX_DB),
    );
}

/// The controls after Match was switched off where it was on.
pub open spec fn without_match(controls: Controls) -> Controls {
    Controls { match_requested: false, ..controls }
}

/// The gesture that switches Match off, where it is on.
pub open spec fn match_off_gesture(controls: Controls) -> Seq<EditEvent> {
    if controls.match_requested {
        gesture(controls, PARAM_MATCH, single::ZERO)
    } else {
        Seq::empty()
    }
}

/// Take the gain over by hand: a running match is switched off.
pub fn activate_manual(params: &mut GainSnapParams, events: &mut Vec<EditEvent>)
    ensures
        final(params)@ == without_match(old(params)@),
        final(events)@ == old(events)@ + match_off_gesture(old(params)@),
{
    if params.match_requested() {
        toggle_value(params, events, PARAM_MATCH, false);
    }
    assert(events@ =~= old(events)@ + match_off_gesture(old(params)@));
}

/// The controls after the gain was set by hand: a running match is off.
pub open spec fn gain_taken(controls: Controls, gain_db: u32) -> Controls {
    with_param(
        without_match(controls),
        PARAM_LOCKED_GAIN_DB,
        single::clamped(gain_db, GAIN_MIN_DB, GAIN_MAX_DB),
    )
}

/// The messages to the host that setting the gain by hand leads to.
pub open spec fn gain_taken_events(controls: Controls, gain_db: u32) -> Seq<EditEvent> {
    match_off_gesture(controls) + gesture(
        without_match(controls),
        PARAM_LOCKED_GAIN_DB,
        single::clamped(gain_db, GAIN_MIN_DB, GAIN_MAX_DB),
    )
}

/// Take the gain over by hand and set it.
pub fn take_gain(params: &mut GainSnapParams, events: &mut Vec<EditEvent>, gain_db: u32)
    ensures
        final(params)@ == gain_taken(old(params)@, gain_db),
        final(events)@ == old(events)@ + gain_taken_events(old(params)@, gain_db),
{
    activate_manual(params, events);
    set_manual_gain_db(params, events, gain_db);
    assert(events@ =~= old(events)@ + gain_taken_events(old(params)@, gain_db));
}

/// Take an entered gain, where `number` is what [`gain_number_text`] of it reads
/// as. A number is stored at once; submitting shows what is stored.
pub fn gain_text_changed(
    params: &mut GainSnapParams,
    events: &mut Vec<EditEvent>,
    number: Option<u32>,
    submitted: bool,
) -> (result: TextOutcome)
    ensures
        result.accepted == (entered_gain(number) is Some),
        result.rewrite == submitted,
        match entered_gain(number) {
            Some(gain_db) => {
                &&& final(params)@ == gain_taken(old(params)@, gain_db)
                &&& final(events)@ == old(events)@ + gain_taken_events(old(params)@, gain_db)
            },
            None => final(params)@ == old(params)@ && final(events)@ == old(events)@,
        },
{
    match parse_gain_text(number) {
        Some(gain_db) => {
            take_gain(params, events, gain_db);
            TextOutcome { accepted: true, rewrite: submitted }
        },
        None => TextOutcome { accepted: false, rewrite: submitted },
    }
}

/// Follow the editor's visibility: hiding it switches a running match off.
pub fn set_visible(params: &mut GainSnapParams, events: &mut Vec<EditEvent>, visible: bool)
    ensures
        final(params)@ == (if visible {
            old(params)@
        } else {
            without_match(old(params)@)
        }),
        final(events)@ == old(events)@ + (if visible {
            Seq::empty()
        } else {
            match_off_gesture(old(params)@)
        }),
        !visible ==> !final(params)@.match_requested,
        final(params)@.locked_gain_db == old(params)@.locked_gain_db,
        final(params)@.target_db == old(params)@.target_db,
        final(params)@.restart_generation == old(params)@.restart_generation,
{
    if !visible && params.match_requested() {
        toggle_value(params, events, PARAM_MATCH, false);
    }
    assert(events@ =~= old(events)@ + (if visible {
        Seq::empty()
    } else {
        match_off_gesture(old(params)@)
    }));
}

/// Request a fresh measurement, where one is running.
pub fn restart_matching(params: &mut GainSnapParams)
    ensures
        final(params)@ == restart_requested(old(params)@),
{
    if params.match_requested() {
        params.request_restart();
    }
}

/// The controls after a fresh measurement was requested.
pub open spec fn restart_requested(controls: Controls) -> Controls {
    if controls.match_requested {
        Controls {
            restart_generation: if controls.restart_generation == u32::MAX {
                0
            } else {
                (controls.restart_generation + 1) as u32
            },
            ..controls
        }
    } else {
        controls
    }
}

/// The target level that an editor shows.
pub fn shown_target(params: &GainSnapParams) -> (result: u32)
    ensures
        result == params@.target_db,
{
    proof {
        crate::params::stored_levels_are_in_range(*params);
    }
    let stored: u32 = match params.get_param(PARAM_TARGET_DB) {
        Some(stored) => stored,
        None => DEFAULT_TARGET_DB,
    };
    single::clamp(stored, TARGET_MIN_DB, TARGET_MAX_DB)
}

/// The gain that an editor shows.
pub fn shown_gain(params: &GainSnapParams) -> (result: u32)
    ensures
        result == params@.locked_gain_db,
{
    proof {
        crate::params::stored_levels_are_in_range(*params);
    }
    let stored: u32 = match params.get_param(PARAM_LOCKED_GAIN_DB) {
        Some(stored) => stored,
        None => single::ZERO,
    };
    single::clamp(stored, GAIN_MIN_DB, GAIN_MAX_DB)
}

/// Direction of a step.
#[derive(Clone, Copy, Debug, PartialEq, Eq, Structural)]
pub enum TargetStepDirection {
    /// Towards 0 dBFS.
    Up,
    /// Away from 0 dBFS.
    Down,
}

impl TargetStepDirection {
    /// The sign of the step, as a number.
    pub fn sign(self) -> (result: u32)
        ensures
            result == (match self {
                TargetStepDirection::Up => single::ONE,
                TargetStepDirection::Down => 0xbf80_0000u32,
            }),
    {
        match self {
            TargetStepDirection::Up => single::ONE,
            TargetStepDirection::Down => 0xbf80_0000,
        }
    }
}

/// The size of a target step.
pub fn target_step(shift_held: bool) -> (result: u32)
    ensures
        result == (if shift_held {
            TARGET_FINE_KEYBOARD_STEP_DB
        } else {
            TARGET_KEYBOARD_STEP_DB
        }),
{
    if shift_held {
        TARGET_FINE_KEYBOARD_STEP_DB
    } else {
        TARGET_KEYBOARD_STEP_DB
    }
}

/// Finish a target step, where `stepped` is the level plus the signed step.
pub fn step_target_db(stepped: u32) -> (result: u32)
    ensures
        result == single::clamped(stepped, TARGET_MIN_DB, TARGET_MAX_DB),
{
    single::clamp(stepped, TARGET_MIN_DB, TARGET_MAX_DB)
}

/// The text without a suffix, where it ends in it.
pub open spec fn without_suffix(entered: Seq<char>, suffix: Seq<char>) -> Option<Seq<char>> {
    if suffix.len() <= entered.len() && entered.skip(entered.len() - suffix.len()) == suffix {
        Some(entered.take(entered.len() - suffix.len()))
    } else {
        None
    }
}

/// The part of an entered target that is to be read as a number: without white
/// space around it and without one unit, dBFS or dB.
pub open spec fn target_number(entered: Seq<char>) -> Seq<char> {
    let raw = text::trimmed(entered);
    match without_suffix(raw, "dBFS"@) {
        Some(number) => text::trimmed(number),
        None => match without_suffix(raw, "dB"@) {
            Some(number) => text::trimmed(number),
            None => text::trimmed(raw),
        },
    }
}

/// The part of an entered gain that is to be read as a number.
pub open spec fn gain_number(entered: Seq<char>) -> Seq<char> {
    let raw = text::trimmed(entered);
    match without_suffix(raw, "dB"@) {
        Some(number) => text::trimmed(number),
        None => text::trimmed(raw),
    }
}

fn strip_suffix<'a>(entered: &'a str, suffix: &str) -> (result: Option<&'a str>)
    ensures
        result is Some <==> without_suffix(entered@, suffix@) is Some,
        result is Some ==> result->0@ == without_suffix(entered@, suffix@)->0,
{
    let length: usize = entered.unicode_len();
    let size: usize = suffix.unicode_len();
    if length < size {
        return None;
    }
    let end: &str = entered.substring_char(length - size, length);
    assert(end@ =~= entered@.skip(length - size));
    if text::equal(end, suffix) {
        let number: &str = entered.substring_char(0, length - size);
        assert(number@ =~= entered@.take(length - size));
        Some(number)
    } else {
        None
    }
}

/// Compute [`target_number`].
pub fn target_number_text<'a>(entered: &'a str) -> (result: &'a str)
    ensures
        result@ == target_number(entered@),
{
    let raw: &str = text::trim(entered);
    match strip_suffix(raw, "dBFS") {
        Some(number) => text::trim(number),
        None => match strip_suffix(raw, "dB") {
            Some(number) => text::trim(number),
            None => text::trim(raw),
        },
    }
}

/// Compute [`gain_number`].
pub fn gain_number_text<'a>(entered: &'a str) -> (result: &'a str)
    ensures
        result@ == gain_number(entered@),
{
    let raw: &str = text::trim(entered);
    match strip_suffix(raw, "dB") {
        Some(number) => text::trim(number),
        None => text::trim(raw),
    }
}

/// The target level that an entered number stands for.
pub open spec fn entered_target(number: Option<u32>) -> Option<u32> {
    match number {
        Some(value) if single::finite(value) => Some(
            single::clamped(value, TARGET_MIN_DB, TARGET_MAX_DB),
        ),
        _ => None,
    }
}

/// The gain that an entered number stands for.
pub open spec fn entered_gain(number: Option<u32>) -> Option<u32> {
    match number {
        Some(value) if single::finite(value) => Some(
            single::clamped(value, GAIN_MIN_DB, GAIN_MAX_DB),
        ),
        _ => None,
    }
}

/// Compute [`entered_target`], where `number` is what [`target_number_text`]
/// reads as.
pub fn parse_target_text(number: Option<u32>) -> (result: Option<u32>)
    ensures
        result == entered_target(number),
{
    match number {
        Some(value) => {
            if single::is_finite(value) {
                Some(single::clamp(value, TARGET_MIN_DB, TARGET_MAX_DB))
            } else {
                None
            }
        },
        None => None,
    }
}

/// Compute [`entered_gain`], where `number` is what [`gain_number_text`] reads
/// as.
pub fn parse_gain_text(number: Option<u32>) -> (result: Option<u32>)
    ensures
        result == entered_gain(number),
{
    match number {
        Some(value) => {
            if single::is_finite(value) {
                Some(single::clamp(value, GAIN_MIN_DB, GAIN_MAX_DB))
            } else {
                None
            }
        },
        None => None,
    }
}

/// A share of a range: bounded to 0..=1, and 0 where it is not finite.
pub fn clamp_fraction(value: u32) -> (result: u32)
    ensures
        result == single::sanitized(value, single::ZERO, single::ONE, single::ZERO),
{
    single::sanitize(value, single::ZERO, single::ONE, single::ZERO)
}

/// A level as a meter shows it.
pub open spec fn metered(value: u32) -> u32 {
    single::sanitized(value, SILENT_DB, TARGET_MAX_DB, SILENT_DB)
}

/// Compute [`metered`].
pub fn sanitize_meter_level_db(value: u32) -> (result: u32)
    ensures
        result == metered(value),
{
    single::sanitize(value, SILENT_DB, TARGET_MAX_DB, SILENT_DB)
}

/// The time in which a meter moves between two levels: it rises faster than it
/// falls.
pub fn meter_response_seconds(current_db: u32, target_db: u32) -> (result: u32)
    ensures
        result == (if single::below(metered(current_db), metered(target_db)) {
            METER_ATTACK_SECONDS
        } else {
            METER_RELEASE_SECONDS
        }),
        single::below(metered(current_db), metered(target_db)) ==> result == 0x3c23_d70a,
        !single::below(metered(current_db), metered(target_db)) ==> result == 0x3e99_999a,
{
    if single::less(sanitize_meter_level_db(current_db), sanitize_meter_level_db(target_db)) {
        METER_ATTACK_SECONDS
    } else {
        METER_RELEASE_SECONDS
    }
}

/// The level of a meter after an update, where `distance` separates the two
/// levels as shown, and `moved` is the way that the response time allows.
pub open spec fn smoothed(
    current_db: u32,
    target_db: u32,
    elapsed_seconds: u32,
    distance: u32,
    moved: u32,
) -> u32 {
    if single::at_most(distance, METER_SETTLE_EPSILON_DB) {
        metered(target_db)
    } else if single::at_most(
        single::smaller(elapsed_seconds, METER_MAX_ELAPSED_SECONDS),
        single::ZERO,
    ) {
        metered(current_db)
    } else {
        metered(moved)
    }
}

/// Compute [`smoothed`].
pub fn smooth_meter_level_db(
    current_db: u32,
    target_db: u32,
    elapsed_seconds: u32,
    distance: u32,
    moved: u32,
) -> (result: u32)
    ensures
        result == smoothed(current_db, target_db, elapsed_seconds, distance, moved),
{
    if single::less_or_equal(distance, METER_SETTLE_EPSILON_DB) {
        return sanitize_meter_level_db(target_db);
    }
    if single::less_or_equal(
        single::min(elapsed_seconds, METER_MAX_ELAPSED_SECONDS),
        single::ZERO,
    ) {
        return sanitize_meter_level_db(current_db);
    }
    sanitize_meter_level_db(moved)
}

/// Whether a meter is still away from its level.
pub fn meter_is_moving(distance: u32) -> (result: bool)
    ensures
        result == single::below(METER_SETTLE_EPSILON_DB, distance),
{
    single::less(METER_SETTLE_EPSILON_DB, distance)
}

/// What an editor shows; a redraw is due exactly when it differs from what was
/// drawn.
#[derive(Clone, Copy, Debug, PartialEq, Eq, Structural)]
pub struct DisplaySnapshot {
    /// Target level.
    pub target_db: u32,
    /// Whether Match is on.
    pub match_requested: bool,
    /// Whether RMS is selected.
    pub rms_mode: bool,
    /// Output peak.
    pub output_peak_db: u32,
    /// Output RMS.
    pub output_rms_db: u32,
    /// Gain.
    pub gain_db: u32,
    /// Matcher state.
    pub state: MatchState,
    /// Matcher activity.
    pub activity: MatchActivity,
}

/// What is shown for a store and a status.
pub open spec fn displayed(controls: Controls, readings: Readings) -> DisplaySnapshot {
    DisplaySnapshot {
        target_db: controls.target_db,
        match_requested: controls.match_requested,
        rms_mode: controls.rms_mode,
        output_peak_db: metered(readings.output_peak_db),
        output_rms_db: metered(readings.output_rms_db),
        gain_db: controls.locked_gain_db,
        state: readings.state,
        activity: readings.activity,
    }
}

impl DisplaySnapshot {
    /// Compute [`displayed`].
    pub fn capture(params: &GainSnapParams, status: &GuiStatus) -> (result: Self)
        ensures
            result == displayed(params@, status@),
    {
        DisplaySnapshot {
            target_db: shown_target(params),
            match_requested: params.match_requested(),
            rms_mode: params.rms_mode(),
            output_peak_db: sanitize_meter_level_db(status.output_peak_db()),
            output_rms_db: sanitize_meter_level_db(status.output_rms_db()),
            gain_db: params.locked_gain_db(),
            state: status.state(),
            activity: status.activity(),
        }
    }

    /// Whether two snapshots look the same.
    pub fn same(&self, other: &DisplaySnapshot) -> (result: bool)
        ensures
            result == (*self == *other),
    {
        *self == *other
    }
}

/// Whether a frame has to be drawn: something shown has changed, a meter is
/// moving, or Match is on.
pub fn needs_realtime_redraw(
    drawn: &DisplaySnapshot,
    params: &GainSnapParams,
    status: &GuiStatus,
    peak_distance: u32,
    rms_distance: u32,
) -> (result: bool)
    ensures
        result == (*drawn != displayed(params@, status@) || single::below(
            METER_SETTLE_EPSILON_DB,
            peak_distance,
        ) || single::below(METER_SETTLE_EPSILON_DB, rms_distance) || params@.match_requested),
{
    let shown = DisplaySnapshot::capture(params, status);
    !drawn.same(&shown) || meter_is_moving(peak_distance) || meter_is_moving(rms_distance)
        || params.match_requested()
}

/// What became of an entered text.
#[derive(Clone, Copy, Debug, PartialEq, Eq, Structural)]
pub struct TextOutcome {
    /// Whether a target was set from it.
    pub accepted: bool,
    /// Whether the field shows the stored target again.
    pub rewrite: bool,
}

/// State that an editor keeps between frames.
#[derive(Clone, Copy, Debug)]
pub struct EditorController {
    target_text_param: u32,
    output_peak_db: u32,
    output_rms_db: u32,
    pulse_alpha: u8,
}

/// The model of [`EditorController`].
#[derive(Clone, Copy, Debug, PartialEq, Eq, Structural)]
pub struct Kept {
    /// Target level that the text field shows.
    pub target_text_param: u32,
    /// Peak level of the meter.
    pub output_peak_db: u32,
    /// RMS level of the meter.
    pub output_rms_db: u32,
    /// Opacity of the pulsing controls.
    pub pulse_alpha: u8,
}

impl View for EditorController {
    type V = Kept;

    closed spec fn view(&self) -> Kept {
        Kept {
            target_text_param: self.target_text_param,
            output_peak_db: self.output_peak_db,
            output_rms_db: self.output_rms_db,
            pulse_alpha: self.pulse_alpha,
        }
    }
}

/// Whether the controls pulse: while Match is on and has not settled.
pub open spec fn pulses(controls: Controls, activity: MatchActivity) -> bool {
    controls.match_requested && (activity == MatchActivity::Listening || activity
        == MatchActivity::Adjusting)
}

impl EditorController {
    /// Start with what the store and the status hold.
    pub fn new(params: &GainSnapParams, status: &GuiStatus) -> (result: Self)
        ensures
            result@ == (Kept {
                target_text_param: params@.target_db,
                output_peak_db: metered(status@.output_peak_db),
                output_rms_db: metered(status@.output_rms_db),
                pulse_alpha: 255,
            }),
    {
        EditorController {
            target_text_param: shown_target(params),
            output_peak_db: sanitize_meter_level_db(status.output_peak_db()),
            output_rms_db: sanitize_meter_level_db(status.output_rms_db()),
            pulse_alpha: 255,
        }
    }

    /// Target level that the text field shows.
    pub fn target_text_param(&self) -> (result: u32)
        ensures
            result == self@.target_text_param,
    {
        self.target_text_param
    }

    /// Peak level of the meter.
    pub fn output_peak_db(&self) -> (result: u32)
        ensures
            result == self@.output_peak_db,
    {
        self.output_peak_db
    }

    /// RMS level of the meter.
    pub fn output_rms_db(&self) -> (result: u32)
        ensures
            result == self@.output_rms_db,
    {
        self.output_rms_db
    }

    /// Opacity of the pulsing controls.
    pub fn pulse_alpha(&self) -> (result: u8)
        ensures
            result == self@.pulse_alpha,
    {
        self.pulse_alpha
    }

    /// Follow a target that was set elsewhere; reports whether the text field
    /// has to be rewritten. `distance` separates the target from the one shown.
    pub fn sync_target_text(&mut self, target_db: u32, distance: u32) -> (result: bool)
        ensures
            result == single::below(TARGET_TEXT_SYNC_EPSILON, distance),
            final(self)@ == (if result {
                Kept { target_text_param: target_db, ..old(self)@ }
            } else {
                old(self)@
            }),
    {
        if single::less(TARGET_TEXT_SYNC_EPSILON, distance) {
            self.target_text_param = target_db;
            true
        } else {
            false
        }
    }

    /// Show a target in the text field.
    pub fn show_target(&mut self, target_db: u32)
        ensures
            final(self)@ == (Kept { target_text_param: target_db, ..old(self)@ }),
    {
        self.target_text_param = target_db;
    }

    /// Set the target in one gesture.
    pub fn set_target_db(
        &mut self,
        params: &mut GainSnapParams,
        events: &mut Vec<EditEvent>,
        value: u32,
    )
        ensures
            final(params)@ == with_param(old(params)@, PARAM_TARGET_DB, value),
            final(events)@ == old(events)@ + gesture(old(params)@, PARAM_TARGET_DB, value),
            final(self)@ == (Kept { target_text_param: target_in_range(value), ..old(self)@ }),
    {
        edit_value(params, events, PARAM_TARGET_DB, value);
        self.target_text_param = shown_target(params);
    }

    /// Take an entered target, where `number` is what [`target_number_text`] of
    /// it reads as. A number is stored at once; submitting shows what is stored.
    pub fn target_text_changed(
        &mut self,
        params: &mut GainSnapParams,
        events: &mut Vec<EditEvent>,
        number: Option<u32>,
        submitted: bool,
    ) -> (result: TextOutcome)
        ensures
            result.accepted == (entered_target(number) is Some),
            result.rewrite == submitted,
            match entered_target(number) {
                Some(value) => {
                    &&& final(params)@ == with_param(old(params)@, PARAM_TARGET_DB, value)
                    &&& final(events)@ == old(events)@ + gesture(
                        old(params)@,
                        PARAM_TARGET_DB,
                        value,
                    )
                    &&& final(self)@ == (Kept {
                        target_text_param: target_in_range(value),
                        ..old(self)@
                    })
                },
                None => {
                    &&& final(params)@ == old(params)@
                    &&& final(events)@ == old(events)@
                    &&& final(self)@ == old(self)@
                },
            },
    {
        match parse_target_text(number) {
            Some(value) => {
                self.set_target_db(params, events, value);
                TextOutcome { accepted: true, rewrite: submitted }
            },
            None => TextOutcome { accepted: false, rewrite: submitted },
        }
    }

    /// Move the meters on; reports whether either moved. The distances are those
    /// between the meters before and after.
    pub fn advance_meter(
        &mut self,
        next_peak: u32,
        next_rms: u32,
        peak_step: u32,
        rms_step: u32,
    ) -> (result: bool)
        ensures
            final(self)@ == (Kept {
                output_peak_db: next_peak,
                output_rms_db: next_rms,
                ..old(self)@
            }),
            result == (single::below(single::EPSILON, peak_step) || single::below(
                single::EPSILON,
                rms_step,
            )),
    {
        self.output_peak_db = next_peak;
        self.output_rms_db = next_rms;
        single::less(single::EPSILON, peak_step) || single::less(single::EPSILON, rms_step)
    }

    /// Move the pulse on; reports whether it changed. `alpha` is the opacity at
    /// the current phase of the pulse.
    pub fn advance_pulse(&mut self, pulsing: bool, alpha: u8) -> (result: bool)
        ensures
            final(self)@.pulse_alpha == (if pulsing {
                alpha
            } else {
                255
            }),
            final(self)@ == (Kept { pulse_alpha: final(self)@.pulse_alpha, ..old(self)@ }),
            result == (final(self)@.pulse_alpha != old(self)@.pulse_alpha),
    {
        let next: u8 = if pulsing {
            alpha
        } else {
            255
        };
        let changed: bool = next != self.pulse_alpha;
        self.pulse_alpha = next;
        changed
    }
}

/// Decide [`pulses`].
pub fn should_pulse(params: &GainSnapParams, status: &GuiStatus) -> (result: bool)
    ensures
        result == pulses(params@, status@.activity),
{
    params.match_requested() && match status.activity() {
        MatchActivity::Listening | MatchActivity::Adjusting => true,
        _ => false,
    }
}

/// Hiding the editor, or taking the gain over by hand, switches Match off and
/// leaves every other setting as it was, the gain among them; doing it again
/// sends nothing.
pub proof fn match_off_keeps_other_settings(controls: Controls)
    ensures
        !without_match(controls).match_requested,
        without_match(controls).locked_gain_db == controls.locked_gain_db,
        without_match(controls).target_db == controls.target_db,
        without_match(controls) == with_param(controls, PARAM_MATCH, single::ZERO),
        match_off_gesture(without_match(controls)) == Seq::<EditEvent>::empty(),
{
}

/// Setting the gain by hand ends a running match, stores a gain that is in range
/// and keeps the target and the mode.
pub proof fn gain_controls_end_the_match(controls: Controls, gain_db: u32)
    ensures
        !gain_taken(controls, gain_db).match_requested,
        single::finite(gain_db) ==> gain_taken(controls, gain_db).locked_gain_db == single::clamped(
            gain_db,
            GAIN_MIN_DB,
            GAIN_MAX_DB,
        ),
        gain_bounded(gain_taken(controls, gain_db).locked_gain_db),
        gain_taken(controls, gain_db).target_db == controls.target_db,
        gain_taken(controls, gain_db).rms_mode == controls.rms_mode,
{
}

/// Restarting has an effect only while Match is on.
pub proof fn restart_needs_a_running_match(controls: Controls)
    ensures
        restart_requested(controls).restart_generation != controls.restart_generation
            <==> controls.match_requested,
        !controls.match_requested ==> restart_requested(controls) == controls,
{
}

/// The host is told the value that was stored, not the one that was asked for.
pub proof fn hosts_hear_the_stored_value(controls: Controls, value: u32)
    requires
        in_range(controls),
    ensures
        gesture(controls, PARAM_TARGET_DB, value)[1] == EditEvent::Value(
            PARAM_TARGET_DB,
            target_in_range(value),
        ),
        gesture(controls, PARAM_LOCKED_GAIN_DB, value)[1] == EditEvent::Value(
            PARAM_LOCKED_GAIN_DB,
            gain_in_range(value),
        ),
        gesture(controls, PARAM_RMS_MODE, value)[1] == EditEvent::Value(
            PARAM_RMS_MODE,
            single::flag(single::switches_on(value)),
        ),
{
}

/// A meter stays between silence and full scale, and a settled meter stays
/// where it is.
pub proof fn meters_stay_on_the_scale(
    current_db: u32,
    target_db: u32,
    elapsed_seconds: u32,
    distance: u32,
    moved: u32,
)
    ensures
        ({
            let next = smoothed(current_db, target_db, elapsed_seconds, distance, moved);
            &&& single::at_most(SILENT_DB, next)
            &&& single::at_most(next, TARGET_MAX_DB)
        }),
        smoothed(target_db, target_db, elapsed_seconds, single::ZERO, moved) == metered(target_db),
{
    single::sanitizing_settles(target_db, SILENT_DB, TARGET_MAX_DB, SILENT_DB);
    single::sanitizing_settles(current_db, SILENT_DB, TARGET_MAX_DB, SILENT_DB);
    single::sanitizing_settles(moved, SILENT_DB, TARGET_MAX_DB, SILENT_DB);
}

/// An edit is one gesture: it begins, carries the value as it reads back from
/// the store, and ends, all for one parameter.
pub proof fn edits_are_whole_gestures(controls: Controls, id: u32, value: u32)
    ensures
        gesture(controls, id, value).len() == 3,
        gesture(controls, id, value)[0] == EditEvent::Begin(id),
        gesture(controls, id, value)[2] == EditEvent::End(id),
        param_of(controls, id) is Some ==> gesture(controls, id, value)[1] == EditEvent::Value(
            id,
            param_of(with_param(controls, id, value), id)->0,
        ),
        param_of(controls, id) is None ==> gesture(controls, id, value)[1] == EditEvent::Value(
            id,
            value,
        ),
{
}

/// Switching Match off, by hiding the editor or by taking the gain over, sends
/// one gesture that reports it as off, and sends nothing where it was off; it
/// changes nothing but the switch.
pub proof fn match_is_switched_off_once(controls: Controls)
    ensures
        without_match(controls) == (Controls { match_requested: false, ..controls }),
        !controls.match_requested ==> match_off_gesture(controls).len() == 0,
        controls.match_requested ==> match_off_gesture(controls) == seq![
            EditEvent::Begin(2),
            EditEvent::Value(2, 0),
            EditEvent::End(2),
        ],
{
}

/// A gain that is set by hand is stored between -36 dB and +120 dB, with Match
/// off and every other setting as it was; the host hears of Match first and then
/// of the gain that was stored.
pub proof fn gains_are_taken_by_hand(controls: Controls, gain_db: u32)
    requires
        single::finite(gain_db),
    ensures
        ({
            let after = gain_taken(controls, gain_db);
            let events = gain_taken_events(controls, gain_db);
            let off = match_off_gesture(controls);
            &&& after == (Controls {
                match_requested: false,
                locked_gain_db: after.locked_gain_db,
                ..controls
            })
            &&& single::at_most(0xc210_0000, gain_db) && single::at_most(gain_db, 0x42f0_0000)
                ==> after.locked_gain_db == gain_db
            &&& single::below(gain_db, 0xc210_0000) ==> after.locked_gain_db == 0xc210_0000
            &&& single::below(0x42f0_0000, gain_db) ==> after.locked_gain_db == 0x42f0_0000
            &&& events.len() == off.len() + 3
            &&& events.take(off.len() as int) == off
            &&& events[off.len() as int] == EditEvent::Begin(3)
            &&& events[off.len() as int + 1] == EditEvent::Value(3, after.locked_gain_db)
            &&& events[off.len() as int + 2] == EditEvent::End(3)
        }),
{
    let events = gain_taken_events(controls, gain_db);
    let off = match_off_gesture(controls);
    assert(events.take(off.len() as int) =~= off);
}

/// A restart is counted while Match is on, from the largest count to 0, and
/// changes nothing else.
pub proof fn restarts_are_counted_while_matching(controls: Controls)
    ensures
        restart_requested(controls) == (Controls {
            restart_generation: restart_requested(controls).restart_generation,
            ..controls
        }),
        controls.match_requested && controls.restart_generation < u32::MAX ==> restart_requested(
            controls,
        ).restart_generation == controls.restart_generation + 1,
        controls.match_requested && controls.restart_generation == u32::MAX ==> restart_requested(
            controls,
        ).restart_generation == 0,
        !controls.match_requested ==> restart_requested(controls) == controls,
{
}

/// An entered target or gain counts exactly where it is a finite number, and is
/// then brought into its range.
pub proof fn entered_levels_are_bounded(number: Option<u32>)
    ensures
        entered_target(number) is Some <==> number is Some && single::finite(number->0),
        entered_gain(number) is Some <==> number is Some && single::finite(number->0),
        number is Some && single::finite(number->0) ==> {
            let value = number->0;
            let target = entered_target(number)->0;
            let gain = entered_gain(number)->0;
            &&& single::at_most(0xc210_0000, value) && single::at_most(value, 0) ==> target == value
            &&& single::below(value, 0xc210_0000) ==> target == 0xc210_0000 && gain == 0xc210_0000
            &&& single::below(0, value) ==> target == 0
            &&& single::at_most(0xc210_0000, value) && single::at_most(value, 0x42f0_0000) ==> gain
                == value
            &&& single::below(0x42f0_0000, value) ==> gain == 0x42f0_0000
        },
{
}

/// An entered level is read without the white space around it and without one
/// unit behind it: dBFS or dB for a target, dB for a gain.
pub proof fn units_are_read_away(digits: Seq<char>)
    requires
        digits.len() > 0,
        !text::white_space(digits[0]),
        !text::white_space(digits.last()),
        digits.last() != 'B',
        digits.last() != 'S',
    ensures
        target_number(digits) == digits,
        gain_number(digits) == digits,
        target_number(digits + "dBFS"@) == digits,
        target_number(digits + "dB"@) == digits,
        gain_number(digits + "dB"@) == digits,
{
    reveal_strlit("dBFS");
    reveal_strlit("dB");
    assert(text::trimmed(digits) == digits);
    assert(digits.len() >= 2 ==> digits.skip(digits.len() - 2).last() != 'B');
    assert(digits.len() >= 4 ==> digits.skip(digits.len() - 4).last() != 'S');
    let full = digits + "dBFS"@;
    assert(full[0] == digits[0]);
    assert(full.last() == 'S');
    assert(text::trimmed(full) == full);
    assert(full.skip(full.len() - 4) =~= "dBFS"@);
    assert(full.take(full.len() - 4) =~= digits);
    let short = digits + "dB"@;
    assert(short[0] == digits[0]);
    assert(short.last() == 'B');
    assert(text::trimmed(short) == short);
    assert(short.skip(short.len() - 2) =~= "dB"@);
    assert(short.take(short.len() - 2) =~= digits);
    assert(short.len() >= 4 ==> short.skip(short.len() - 4).last() == 'B');
}

/// A suffix is taken off exactly where a text ends in it.
pub proof fn suffixes_are_taken_off_where_they_stand(entered: Seq<char>, suffix: Seq<char>)
    ensures
        without_suffix(entered + suffix, suffix) == Some(entered),
        without_suffix(entered, suffix) matches Some(rest) ==> rest + suffix == entered,
{
    let whole = entered + suffix;
    assert(whole.skip(whole.len() - suffix.len()) =~= suffix);
    assert(whole.take(whole.len() - suffix.len()) =~= entered);
    if let Some(rest) = without_suffix(entered, suffix) {
        assert(rest + suffix =~= entered.take(entered.len() - suffix.len()) + entered.skip(
            entered.len() - suffix.len(),
        ));
        assert(rest + suffix =~= entered);
    }
}

/// A meter shows a level between -120 dB and 0 dB as it is, any other finite one
/// at the nearer end, and silence for what is not finite.
pub proof fn meters_show_levels_up_to_full_scale(value: u32)
    ensures
        single::at_most(0xc2f0_0000, value) && single::at_most(value, 0) ==> metered(value)
            == value,
        single::finite(value) && single::below(value, 0xc2f0_0000) ==> metered(value)
            == 0xc2f0_0000,
        single::finite(value) && single::below(0, value) ==> metered(value) == 0,
        !single::finite(value) ==> metered(value) == 0xc2f0_0000,
{
}

/// A meter jumps to its level within a hundredth of a decibel, rests while no
/// time passes, and moves as far as its response allows otherwise.
pub proof fn meters_jump_rest_or_move(
    current_db: u32,
    target_db: u32,
    elapsed_seconds: u32,
    distance: u32,
    moved: u32,
)
    requires
        !single::nan(distance),
        !single::nan(elapsed_seconds),
    ensures
        ({
            let next = smoothed(current_db, target_db, elapsed_seconds, distance, moved);
            let near = !single::below(0x3c23_d70a, distance);
            &&& near ==> next == metered(target_db)
            &&& !near && single::below(0, elapsed_seconds) ==> next == metered(moved)
            &&& !near && !single::below(0, elapsed_seconds) ==> next == metered(current_db)
        }),
{
}

/// The editor shows the stored controls and the reported status, its meters on
/// their scale; it pulses exactly while Match is on and still listening or
/// adjusting.
pub proof fn editors_show_store_and_status(controls: Controls, readings: Readings)
    ensures
        displayed(controls, readings).target_db == controls.target_db,
        displayed(controls, readings).match_requested == controls.match_requested,
        displayed(controls, readings).rms_mode == controls.rms_mode,
        displayed(controls, readings).gain_db == controls.locked_gain_db,
        displayed(controls, readings).output_peak_db == metered(readings.output_peak_db),
        displayed(controls, readings).output_rms_db == metered(readings.output_rms_db),
        displayed(controls, readings).state == readings.state,
        displayed(controls, readings).activity == readings.activity,
        !controls.match_requested ==> !pulses(controls, readings.activity),
        controls.match_requested ==> (pulses(controls, readings.activity) <==> readings.activity
            == MatchActivity::Listening || readings.activity == MatchActivity::Adjusting),
{
}

/// White space around an entered level, or between its number and its unit, makes
/// no difference.
pub proof fn blanks_make_no_difference(entered: Seq<char>, digits: Seq<char>)
    requires
        digits.len() > 0,
        !text::white_space(digits[0]),
        !text::white_space(digits.last()),
    ensures
        target_number(text::trimmed(entered)) == target_number(entered),
        gain_number(text::trimmed(entered)) == gain_number(entered),
        target_number(digits + " dBFS"@) == digits,
        target_number(digits + " dB"@) == digits,
        gain_number(digits + " dB"@) == digits,
{
    text::trimming_settles(entered);
    reveal_strlit("dBFS");
    reveal_strlit("dB");
    reveal_strlit(" dBFS");
    reveal_strlit(" dB");
    let spaced = digits.push(' ');
    assert(spaced.drop_last() =~= digits);
    assert(text::trimmed_end(digits) == digits);
    assert(text::trimmed_end(spaced) == text::trimmed_end(spaced.drop_last()));
    assert(spaced[0] == digits[0]);
    assert(text::trimmed(spaced) == digits);
    let full = digits + " dBFS"@;
    assert(full[0] == digits[0]);
    assert(full.last() == 'S');
    assert(text::trimmed(full) == full);
    assert(full.skip(full.len() - 4) =~= "dBFS"@);
    assert(full.take(full.len() - 4) =~= spaced);
    let short = digits + " dB"@;
    assert(short[0] == digits[0]);
    assert(short.last() == 'B');
    assert(text::trimmed(short) == short);
    assert(short.skip(short.len() - 2) =~= "dB"@);
    assert(short.take(short.len() - 2) =~= spaced);
    assert(short.len() >= 4 ==> short.skip(short.len() - 4).last() == 'B');
}

} // verus!
