//! Decisions of the compact editor: its meter widget, its messages and what it
//! shows of the matcher.
use vstd::prelude::*;

use crate::editor::{
    entered_target, gesture, meter_is_moving, metered, parse_target_text, sanitize_meter_level_db,
    shown_target, toggle_value, EditEvent, EditorController, Kept, TargetStepDirection,
    METER_SETTLE_EPSILON_DB, TARGET_TEXT_SYNC_EPSILON,
};
use crate::params::{
    target_in_range, with_param, Controls, GainSnapParams, PARAM_MATCH, PARAM_TARGET_DB,
    TARGET_MAX_DB,
};
use crate::single;
use crate::status::{GuiStatus, MatchState, Readings};

verus! {

/// Preferred logical editor width.
pub const WINDOW_WIDTH: u32 = 208;

/// Preferred logical editor height.
pub const WINDOW_HEIGHT: u32 = 212;

/// Minimum logical editor width.
pub const MIN_WINDOW_WIDTH: u32 = WINDOW_WIDTH;

/// Minimum logical editor height.
pub const MIN_WINDOW_HEIGHT: u32 = WINDOW_HEIGHT;

/// Maximum logical editor width.
pub const MAX_WINDOW_WIDTH: u32 = 480;

/// Maximum logical editor height.
pub const MAX_WINDOW_HEIGHT: u32 = 520;

/// Number of ticks beside the meter.
pub const TARGET_METER_TICK_COUNT: usize = 13;

/// The size with which the editor opens.
pub fn preferred_window_size() -> (result: (u32, u32))
    ensures
        result == (208u32, 212u32),
        MIN_WINDOW_WIDTH <= result.0 <= MAX_WINDOW_WIDTH,
        MIN_WINDOW_HEIGHT <= result.1 <= MAX_WINDOW_HEIGHT,
{
    (WINDOW_WIDTH, WINDOW_HEIGHT)
}

/// A viewport as it is laid out: never empty.
pub fn viewport(width: u32, height: u32) -> (result: (u32, u32))
    ensures
        result.0 == (if width == 0 {
            1
        } else {
            width
        }),
        result.1 == (if height == 0 {
            1
        } else {
            height
        }),
{
    (
        if width == 0 {
            1
        } else {
            width
        },
        if height == 0 {
            1
        } else {
            height
        },
    )
}

/// Accent of the status indicator.
#[derive(Clone, Copy, Debug, PartialEq, Eq, Structural)]
pub enum Tone {
    /// Emphasized border.
    Border,
    /// Accent.
    Accent,
    /// Highlight.
    Highlight,
    /// Danger.
    Danger,
    /// Accent at the opacity of the pulse.
    Pulse,
}

/// Label of the status indicator.
pub fn status_label(state: MatchState) -> (result: &'static str)
    ensures
        result@ == (match state {
            MatchState::Ready => "Ready"@,
            MatchState::Measuring => "Measuring"@,
            MatchState::Locked => "Locked"@,
            MatchState::NoSignal => "No signal"@,
        }),
{
    match state {
        MatchState::Ready => "Ready",
        MatchState::Measuring => "Measuring",
        MatchState::Locked => "Locked",
        MatchState::NoSignal => "No signal",
    }
}

/// Tone of the status indicator: the pulse while Match is on, else that of the
/// state.
pub fn status_tone(active: bool, state: MatchState) -> (result: Tone)
    ensures
        result == (if active {
            Tone::Pulse
        } else {
            match state {
                MatchState::Ready => Tone::Border,
                MatchState::Measuring => Tone::Accent,
                MatchState::Locked => Tone::Highlight,
                MatchState::NoSignal => Tone::Danger,
            }
        }),
{
    if active {
        return Tone::Pulse;
    }
    match state {
        MatchState::Ready => Tone::Border,
        MatchState::Measuring => Tone::Accent,
        MatchState::Locked => Tone::Highlight,
        MatchState::NoSignal => Tone::Danger,
    }
}

/// Whether a meter tick is one of the longer ones.
pub fn is_major_tick(index: usize) -> (result: bool)
    ensures
        result == (index as int % 2 == 0),
{
    index % 2 == 0
}

/// Where the target marker stands on its track.
#[derive(Clone, Copy, Debug, PartialEq, Eq, Structural)]
pub enum MarkerPlace {
    /// At the upper end.
    Top,
    /// At the lower end.
    Bottom,
    /// In between.
    Between,
}

/// Place the target marker: at an end of the track exactly, where the level is
/// at an end of the range.
pub fn marker_place(fraction: u32) -> (result: MarkerPlace)
    ensures
        result == (if single::at_most(single::ONE, fraction) {
            MarkerPlace::Top
        } else if single::at_most(fraction, single::ZERO) {
            MarkerPlace::Bottom
        } else {
            MarkerPlace::Between
        }),
{
    if single::less_or_equal(single::ONE, fraction) {
        MarkerPlace::Top
    } else if single::less_or_equal(fraction, single::ZERO) {
        MarkerPlace::Bottom
    } else {
        MarkerPlace::Between
    }
}

/// A key that the meter understands.
#[derive(Clone, Copy, Debug, PartialEq, Eq, Structural)]
pub enum MeterKey {
    /// Arrow up or right.
    Raise,
    /// Arrow down or left.
    Lower,
    /// Home.
    Home,
    /// End.
    End,
    /// Any other key.
    Other,
}

/// Input of the meter widget. Whether a position lies inside the widget is
/// decided by the layout.
#[derive(Clone, Copy, Debug, PartialEq, Eq, Structural)]
pub enum MeterInput {
    /// The pointer moved.
    Move {
        /// Whether it is inside.
        inside: bool,
    },
    /// A button was pressed.
    Press {
        /// Whether it is inside.
        inside: bool,
        /// Whether it is the primary button.
        primary: bool,
    },
    /// A button was released, or a drag dropped.
    Release {
        /// Whether it is inside.
        inside: bool,
        /// Whether it is the primary button.
        primary: bool,
    },
    /// The focus came or went.
    Focus(bool),
    /// The modifier keys changed.
    Modifiers {
        /// Whether Shift is held.
        shift: bool,
    },
    /// A key was pressed.
    Key(MeterKey),
    /// Anything else.
    Other,
}

/// What an input does to the value of the meter.
#[derive(Clone, Copy, Debug, PartialEq, Eq, Structural)]
pub enum MeterAction {
    /// Nothing.
    Keep,
    /// Take the value under the pointer.
    FollowPointer,
    /// Step up, by the fine step where it is asked for.
    Raise {
        /// Whether the step is fine.
        fine: bool,
    },
    /// Step down, by the fine step where it is asked for.
    Lower {
        /// Whether the step is fine.
        fine: bool,
    },
    /// Take the lowest value.
    Lowest,
    /// Take the highest value.
    Highest,
}

/// Interaction state of the meter widget.
#[derive(Clone, Copy, Debug, PartialEq, Eq, Structural)]
pub struct MeterState {
    /// Whether input is refused.
    pub inert: bool,
    /// Whether the pointer is inside.
    pub hovered: bool,
    /// Whether the primary button is held.
    pub pressed: bool,
    /// Whether the widget has the focus.
    pub focused: bool,
    /// Whether Shift is held.
    pub shift_held: bool,
}

/// The interaction state after an input.
pub open spec fn meter_after(s: MeterState, input: MeterInput) -> MeterState {
    if s.inert {
        s
    } else {
        match input {
            MeterInput::Move { inside } => MeterState { hovered: inside, ..s },
            MeterInput::Press { inside, primary } => if inside && primary {
                MeterState { hovered: true, pressed: true, focused: true, ..s }
            } else {
                s
            },
            MeterInput::Release { inside, primary } => if primary {
                MeterState {
                    pressed: false,
                    hovered: if s.pressed {
                        inside
                    } else {
                        s.hovered
                    },
                    ..s
                }
            } else {
                s
            },
            MeterInput::Focus(focused) => MeterState {
                focused,
                pressed: s.pressed && focused,
                ..s
            },
            MeterInput::Modifiers { shift } => MeterState { shift_held: shift, ..s },
            MeterInput::Key(_) => s,
            MeterInput::Other => s,
        }
    }
}

/// What an input does to the value.
pub open spec fn meter_action(s: MeterState, input: MeterInput) -> MeterAction {
    if s.inert {
        MeterAction::Keep
    } else {
        match input {
            MeterInput::Move { inside } => if s.pressed {
                MeterAction::FollowPointer
            } else {
                MeterAction::Keep
            },
            MeterInput::Press { inside, primary } => if inside && primary {
                MeterAction::FollowPointer
            } else {
                MeterAction::Keep
            },
            MeterInput::Release { inside, primary } => if primary && s.pressed {
                MeterAction::FollowPointer
            } else {
                MeterAction::Keep
            },
            MeterInput::Key(key) => if !s.focused {
                MeterAction::Keep
            } else {
                match key {
                    MeterKey::Raise => MeterAction::Raise { fine: s.shift_held },
                    MeterKey::Lower => MeterAction::Lower { fine: s.shift_held },
                    MeterKey::Home => MeterAction::Lowest,
                    MeterKey::End => MeterAction::Highest,
                    MeterKey::Other => MeterAction::Keep,
                }
            },
            _ => MeterAction::Keep,
        }
    }
}

impl MeterState {
    /// Take an input.
    pub fn handle_input(&mut self, input: MeterInput) -> (result: MeterAction)
        ensures
            *final(self) == meter_after(*old(self), input),
            result == meter_action(*old(self), input),
    {
        if self.inert {
            return MeterAction::Keep;
        }
        match input {
            MeterInput::Move { inside } => {
                self.hovered = inside;
                if self.pressed {
                    MeterAction::FollowPointer
                } else {
                    MeterAction::Keep
                }
            },
            MeterInput::Press { inside, primary } => {
                if inside && primary {
                    self.hovered = true;
                    self.pressed = true;
                    self.focused = true;
                    MeterAction::FollowPointer
                } else {
                    MeterAction::Keep
                }
            },
            MeterInput::Release { inside, primary } => {
                if !primary {
                    return MeterAction::Keep;
                }
                let was_pressed: bool = self.pressed;
                self.pressed = false;
                if was_pressed {
                    self.hovered = inside;
                    MeterAction::FollowPointer
                } else {
                    MeterAction::Keep
                }
            },
            MeterInput::Focus(focused) => {
                self.focused = focused;
                if !focused {
                    self.pressed = false;
                }
                MeterAction::Keep
            },
            MeterInput::Modifiers { shift } => {
                self.shift_held = shift;
                MeterAction::Keep
            },
            MeterInput::Key(key) => {
                if !self.focused {
                    return MeterAction::Keep;
                }
                match key {
                    MeterKey::Raise => MeterAction::Raise { fine: self.shift_held },
                    MeterKey::Lower => MeterAction::Lower { fine: self.shift_held },
                    MeterKey::Home => MeterAction::Lowest,
                    MeterKey::End => MeterAction::Highest,
                    MeterKey::Other => MeterAction::Keep,
                }
            },
            MeterInput::Other => MeterAction::Keep,
        }
    }
}

/// The value to report after the meter was asked for a fraction, where
/// `distance` separates it from the current value: nothing for no change.
pub fn changed_value(fraction: u32, distance: u32) -> (result: Option<u32>)
    ensures
        result == (if single::at_most(distance, single::EPSILON) {
            None
        } else {
            Some(fraction)
        }),
{
    if single::less_or_equal(distance, single::EPSILON) {
        None
    } else {
        Some(fraction)
    }
}

/// The step that an arrow key makes in the text field, where it has the focus.
pub fn text_field_step(key: MeterKey, horizontal: bool, text_focused: bool) -> (result: Option<
    TargetStepDirection,
>)
    ensures
        result == (if !text_focused || horizontal {
            None
        } else {
            match key {
                MeterKey::Raise => Some(TargetStepDirection::Up),
                MeterKey::Lower => Some(TargetStepDirection::Down),
                _ => None,
            }
        }),
{
    if !text_focused || horizontal {
        return None;
    }
    match key {
        MeterKey::Raise => Some(TargetStepDirection::Up),
        MeterKey::Lower => Some(TargetStepDirection::Down),
        _ => None,
    }
}

/// What the compact editor shows.
#[derive(Clone, Copy, Debug, PartialEq, Eq, Structural)]
pub struct CompactSnapshot {
    /// Target level.
    pub target_db: u32,
    /// Whether Match is on.
    pub match_requested: bool,
    /// Output peak.
    pub output_peak_db: u32,
    /// Held gain.
    pub locked_gain_db: u32,
    /// Measurement progress.
    pub progress: u32,
    /// Matcher state.
    pub state: MatchState,
}

/// What the compact editor shows for a store and a status.
pub open spec fn compact_display(controls: Controls, readings: Readings) -> CompactSnapshot {
    CompactSnapshot {
        target_db: controls.target_db,
        match_requested: controls.match_requested,
        output_peak_db: metered(readings.output_peak_db),
        locked_gain_db: readings.locked_gain_db,
        progress: readings.progress,
        state: readings.state,
    }
}

impl CompactSnapshot {
    /// Compute [`compact_display`].
    pub fn capture(params: &GainSnapParams, status: &GuiStatus) -> (result: Self)
        ensures
            result == compact_display(params@, status@),
    {
        CompactSnapshot {
            target_db: shown_target(params),
            match_requested: params.match_requested(),
            output_peak_db: sanitize_meter_level_db(status.output_peak_db()),
            locked_gain_db: status.locked_gain_db(),
            progress: status.progress(),
            state: status.state(),
        }
    }

    /// Whether a new picture is due: something shown has changed, or the meter or
    /// the pulse moved.
    pub fn refresh_due(&self, drawn: &CompactSnapshot, meter_moved: bool, pulse_moved: bool) -> (result:
        bool)
        ensures
            result == (*self != *drawn || meter_moved || pulse_moved),
    {
        *self != *drawn || meter_moved || pulse_moved
    }
}

/// Whether the compact editor has to be drawn again: something shown has
/// changed, the meter is away from its level, or Match is on.
pub fn needs_realtime_redraw(
    drawn: &CompactSnapshot,
    params: &GainSnapParams,
    status: &GuiStatus,
    meter_distance: u32,
) -> (result: bool)
    ensures
        result == (*drawn != compact_display(params@, status@) || single::below(
            METER_SETTLE_EPSILON_DB,
            meter_distance,
        ) || params@.match_requested),
{
    let shown = CompactSnapshot::capture(params, status);
    shown.refresh_due(drawn, meter_is_moving(meter_distance), params.match_requested())
}

/// A message of the compact editor.
#[derive(Clone, Copy, Debug, PartialEq, Eq, Structural)]
pub enum EditorMessage {
    /// The meter set a target.
    TargetChanged(u32),
    /// A text was entered, which reads as this number if it is one.
    TargetTextChanged {
        /// The number.
        number: Option<u32>,
        /// Whether the text was submitted.
        submitted: bool,
    },
    /// An arrow key stepped the target to this level, this far away.
    StepTarget {
        /// The level after the step.
        stepped: u32,
        /// The distance from the level before.
        distance: u32,
    },
    /// A flag was switched.
    Toggle {
        /// The parameter.
        id: u32,
        /// Whether it is on.
        checked: bool,
    },
    /// Set the target to 0 dBFS and start Match.
    Normalize,
}

/// The target that a message sets.
pub open spec fn message_target(message: EditorMessage) -> Option<u32> {
    match message {
        EditorMessage::TargetChanged(value) => Some(value),
        EditorMessage::TargetTextChanged { number, submitted } => entered_target(number),
        EditorMessage::StepTarget { stepped, distance } => if single::below(
            TARGET_TEXT_SYNC_EPSILON,
            distance,
        ) {
            Some(stepped)
        } else {
            None
        },
        EditorMessage::Toggle { id, checked } => None,
        EditorMessage::Normalize => Some(TARGET_MAX_DB),
    }
}

/// The controls after a message.
pub open spec fn reduced(controls: Controls, message: EditorMessage) -> Controls {
    let targeted = match message_target(message) {
        Some(value) => with_param(controls, PARAM_TARGET_DB, value),
        None => controls,
    };
    match message {
        EditorMessage::Toggle { id, checked } => with_param(controls, id, single::flag(checked)),
        EditorMessage::Normalize => with_param(targeted, PARAM_MATCH, single::ONE),
        _ => targeted,
    }
}

/// The messages to the host that a message leads to.
pub open spec fn message_events(controls: Controls, message: EditorMessage) -> Seq<EditEvent> {
    let targeted = match message_target(message) {
        Some(value) => gesture(controls, PARAM_TARGET_DB, value),
        None => Seq::empty(),
    };
    match message {
        EditorMessage::Toggle { id, checked } => gesture(controls, id, single::flag(checked)),
        EditorMessage::Normalize => targeted + gesture(
            with_param(controls, PARAM_TARGET_DB, TARGET_MAX_DB),
            PARAM_MATCH,
            single::ONE,
        ),
        _ => targeted,
    }
}

/// Whether the text field shows the stored target again after a message.
pub open spec fn rewrites_text(message: EditorMessage) -> bool {
    match message {
        EditorMessage::TargetChanged(_) => true,
        EditorMessage::TargetTextChanged { number, submitted } => submitted,
        EditorMessage::StepTarget { stepped, distance } => true,
        EditorMessage::Toggle { id, checked } => false,
        EditorMessage::Normalize => true,
    }
}

/// The target that the text field shows after a message.
pub open spec fn text_target(controls: Controls, kept: Kept, message: EditorMessage) -> u32 {
    match message_target(message) {
        Some(value) => target_in_range(value),
        None => match message {
            EditorMessage::StepTarget { stepped, distance } => controls.target_db,
            _ => kept.target_text_param,
        },
    }
}

/// Carry out a message; reports whether the text field shows the stored target
/// again.
pub fn reduce_message(
    controller: &mut EditorController,
    params: &mut GainSnapParams,
    events: &mut Vec<EditEvent>,
    message: EditorMessage,
) -> (result: bool)
    ensures
        final(params)@ == reduced(old(params)@, message),
        final(events)@ == old(events)@ + message_events(old(params)@, message),
        final(controller)@ == (Kept {
            target_text_param: text_target(old(params)@, old(controller)@, message),
            ..old(controller)@
        }),
        result == rewrites_text(message),
{
    let result: bool = match message {
        EditorMessage::TargetChanged(value) => {
            controller.set_target_db(params, events, value);
            true
        },
        EditorMessage::TargetTextChanged { number, submitted } => {
            if let Some(value) = parse_target_text(number) {
                controller.set_target_db(params, events, value);
            }
            submitted
        },
        EditorMessage::StepTarget { stepped, distance } => {
            if single::less(TARGET_TEXT_SYNC_EPSILON, distance) {
                controller.set_target_db(params, events, stepped);
            } else {
                let target_db: u32 = shown_target(params);
                controller.show_target(target_db);
            }
            true
        },
        EditorMessage::Toggle { id, checked } => {
            toggle_value(params, events, id, checked);
            false
        },
        EditorMessage::Normalize => {
            controller.set_target_db(params, events, TARGET_MAX_DB);
            toggle_value(params, events, PARAM_MATCH, true);
            true
        },
    };
    assert(events@ =~= old(events)@ + message_events(old(params)@, message));
    result
}

/// The meter takes pointer values only between a press and a release, and lets
/// go of the pointer when it loses the focus.
pub proof fn dragging_needs_a_press(s: MeterState, inside: bool, focused: bool)
    ensures
        meter_action(s, (MeterInput::Move { inside })) == MeterAction::FollowPointer <==> s.pressed
            && !s.inert,
        !s.inert ==> !meter_after(s, (MeterInput::Release { inside, primary: true })).pressed,
        !s.inert ==> !meter_after(s, MeterInput::Focus(false)).pressed,
        !s.inert ==> meter_after(s, (MeterInput::Press { inside: true, primary: true })).pressed,
{
}

/// A widget that refuses input stays as it is.
pub proof fn inert_meters_ignore_input(s: MeterState, input: MeterInput)
    requires
        s.inert,
    ensures
        meter_after(s, input) == s,
        meter_action(s, input) == MeterAction::Keep,
{
}

/// Normalizing sets the target to 0 dBFS and starts Match.
pub proof fn normalizing_targets_full_scale(controls: Controls)
    ensures
        reduced(controls, EditorMessage::Normalize).target_db == TARGET_MAX_DB,
        reduced(controls, EditorMessage::Normalize).match_requested,
        reduced(controls, EditorMessage::Normalize).locked_gain_db == controls.locked_gain_db,
{
}

/// What every input does to a meter that takes input: the pointer hovers and
/// drags, the primary button presses inside and releases anywhere, losing the
/// focus lets go, and a key changes no state.
pub proof fn meters_follow_their_input(
    s: MeterState,
    inside: bool,
    primary: bool,
    on: bool,
    key: MeterKey,
)
    requires
        !s.inert,
    ensures
        meter_after(s, (MeterInput::Move { inside })) == (MeterState { hovered: inside, ..s }),
        meter_after(s, (MeterInput::Press { inside: true, primary: true })) == (MeterState {
            hovered: true,
            pressed: true,
            focused: true,
            ..s
        }),
        !inside || !primary ==> meter_after(s, (MeterInput::Press { inside, primary })) == s,
        s.pressed ==> meter_after(s, (MeterInput::Release { inside, primary: true }))
            == (MeterState { pressed: false, hovered: inside, ..s }),
        !s.pressed ==> meter_after(s, (MeterInput::Release { inside, primary: true })) == s,
        meter_after(s, (MeterInput::Release { inside, primary: false })) == s,
        meter_after(s, MeterInput::Focus(true)) == (MeterState { focused: true, ..s }),
        meter_after(s, MeterInput::Focus(false)) == (MeterState {
            focused: false,
            pressed: false,
            ..s
        }),
        meter_after(s, (MeterInput::Modifiers { shift: on })) == (MeterState {
            shift_held: on,
            ..s
        }),
        meter_after(s, MeterInput::Key(key)) == s,
        meter_after(s, MeterInput::Other) == s,
{
}

/// What every input does to the value of a meter that takes input: the pointer
/// sets it from the press to the release, and the keys step it or take it to an
/// end while the meter has the focus, in fine steps while Shift is held.
pub proof fn meters_change_by_pointer_and_keys(s: MeterState, inside: bool, primary: bool, on: bool)
    requires
        !s.inert,
    ensures
        meter_action(s, (MeterInput::Press { inside, primary })) == (if inside && primary {
            MeterAction::FollowPointer
        } else {
            MeterAction::Keep
        }),
        meter_action(s, (MeterInput::Move { inside })) == (if s.pressed {
            MeterAction::FollowPointer
        } else {
            MeterAction::Keep
        }),
        meter_action(s, (MeterInput::Release { inside, primary })) == (if s.pressed && primary {
            MeterAction::FollowPointer
        } else {
            MeterAction::Keep
        }),
        s.focused ==> meter_action(s, MeterInput::Key(MeterKey::Raise)) == (MeterAction::Raise {
            fine: s.shift_held,
        }),
        s.focused ==> meter_action(s, MeterInput::Key(MeterKey::Lower)) == (MeterAction::Lower {
            fine: s.shift_held,
        }),
        s.focused ==> meter_action(s, MeterInput::Key(MeterKey::Home)) == MeterAction::Lowest,
        s.focused ==> meter_action(s, MeterInput::Key(MeterKey::End)) == MeterAction::Highest,
        meter_action(s, MeterInput::Key(MeterKey::Other)) == MeterAction::Keep,
        forall|key: MeterKey|
            !s.focused ==> #[trigger] meter_action(s, MeterInput::Key(key)) == MeterAction::Keep,
        meter_action(s, MeterInput::Focus(on)) == MeterAction::Keep,
        meter_action(s, (MeterInput::Modifiers { shift: on })) == MeterAction::Keep,
        meter_action(s, MeterInput::Other) == MeterAction::Keep,
{
}

/// What every message does to the store: a target from the meter, from a finite
/// entered number, or from a step of more than a ten-thousandth of a decibel is
/// stored in its range, a switch is stored as it stands, and Normalize stores
/// 0 dBFS and switches Match on. Nothing else changes.
pub proof fn messages_change_what_they_name(
    controls: Controls,
    value: u32,
    distance: u32,
    submitted: bool,
    checked: bool,
)
    ensures
        reduced(controls, EditorMessage::TargetChanged(value)) == (Controls {
            target_db: target_in_range(value),
            ..controls
        }),
        single::finite(value) ==> reduced(
            controls,
            (EditorMessage::TargetTextChanged { number: Some(value), submitted }),
        ) == (Controls { target_db: target_in_range(value), ..controls }),
        !single::finite(value) ==> reduced(
            controls,
            (EditorMessage::TargetTextChanged { number: Some(value), submitted }),
        ) == controls,
        reduced(controls, (EditorMessage::TargetTextChanged { number: None, submitted }))
            == controls,
        single::below(0x38d1_b717, distance) ==> reduced(
            controls,
            (EditorMessage::StepTarget { stepped: value, distance }),
        ) == (Controls { target_db: target_in_range(value), ..controls }),
        !single::below(0x38d1_b717, distance) ==> reduced(
            controls,
            (EditorMessage::StepTarget { stepped: value, distance }),
        ) == controls,
        reduced(controls, (EditorMessage::Toggle { id: 2, checked })) == (Controls {
            match_requested: checked,
            ..controls
        }),
        reduced(controls, (EditorMessage::Toggle { id: 4, checked })) == (Controls {
            rms_mode: checked,
            ..controls
        }),
        reduced(controls, EditorMessage::Normalize) == (Controls {
            target_db: 0,
            match_requested: true,
            ..controls
        }),
{
}

/// The host hears of every stored change in one gesture, of Normalize in one for
/// the target and one for Match, and of nothing else.
pub proof fn messages_reach_the_host(
    controls: Controls,
    value: u32,
    distance: u32,
    submitted: bool,
    checked: bool,
    id: u32,
)
    ensures
        message_events(controls, EditorMessage::TargetChanged(value)) == gesture(
            controls,
            1,
            value,
        ),
        message_events(
            controls,
            (EditorMessage::TargetTextChanged { number: None, submitted }),
        ).len() == 0,
        !single::finite(value) ==> message_events(
            controls,
            (EditorMessage::TargetTextChanged { number: Some(value), submitted }),
        ).len() == 0,
        single::finite(value) ==> message_events(
            controls,
            (EditorMessage::TargetTextChanged { number: Some(value), submitted }),
        ) == seq![
            EditEvent::Begin(1),
            EditEvent::Value(1, target_in_range(value)),
            EditEvent::End(1),
        ],
        single::below(0x38d1_b717, distance) ==> message_events(
            controls,
            (EditorMessage::StepTarget { stepped: value, distance }),
        ) == gesture(controls, 1, value),
        !single::below(0x38d1_b717, distance) ==> message_events(
            controls,
            (EditorMessage::StepTarget { stepped: value, distance }),
        ).len() == 0,
        message_events(controls, (EditorMessage::Toggle { id, checked })) == gesture(
            controls,
            id,
            single::flag(checked),
        ),
        message_events(controls, EditorMessage::Normalize) == seq![
            EditEvent::Begin(1),
            EditEvent::Value(1, 0),
            EditEvent::End(1),
            EditEvent::Begin(2),
            EditEvent::Value(2, 0x3f80_0000),
            EditEvent::End(2),
        ],
{
}

/// The text field shows the stored target after every message that sets one, the
/// current one after a step too small to count, and is left alone otherwise; it
/// is written anew unless a text is still being entered or a flag was switched.
pub proof fn text_fields_show_the_stored_target(
    controls: Controls,
    kept: Kept,
    value: u32,
    distance: u32,
    submitted: bool,
    checked: bool,
    id: u32,
)
    ensures
        text_target(controls, kept, EditorMessage::TargetChanged(value)) == target_in_range(value),
        single::finite(value) ==> text_target(
            controls,
            kept,
            (EditorMessage::TargetTextChanged { number: Some(value), submitted }),
        ) == target_in_range(value),
        text_target(controls, kept, (EditorMessage::TargetTextChanged { number: None, submitted }))
            == kept.target_text_param,
        single::below(0x38d1_b717, distance) ==> text_target(
            controls,
            kept,
            (EditorMessage::StepTarget { stepped: value, distance }),
        ) == target_in_range(value),
        !single::below(0x38d1_b717, distance) ==> text_target(
            controls,
            kept,
            (EditorMessage::StepTarget { stepped: value, distance }),
        ) == controls.target_db,
        text_target(controls, kept, (EditorMessage::Toggle { id, checked }))
            == kept.target_text_param,
        text_target(controls, kept, EditorMessage::Normalize) == 0,
        rewrites_text(EditorMessage::TargetChanged(value)),
        rewrites_text((EditorMessage::TargetTextChanged { number: Some(value), submitted }))
            == submitted,
        rewrites_text((EditorMessage::TargetTextChanged { number: None, submitted })) == submitted,
        rewrites_text((EditorMessage::StepTarget { stepped: value, distance })),
        !rewrites_text((EditorMessage::Toggle { id, checked })),
        rewrites_text(EditorMessage::Normalize),
{
}

/// The compact editor shows the stored target and switch, and the reported gain,
/// progress and state, its meter on its scale.
pub proof fn compact_editors_show_store_and_status(controls: Controls, readings: Readings)
    ensures
        compact_display(controls, readings).target_db == controls.target_db,
        compact_display(controls, readings).match_requested == controls.match_requested,
        compact_display(controls, readings).output_peak_db == metered(readings.output_peak_db),
        compact_display(controls, readings).locked_gain_db == readings.locked_gain_db,
        compact_display(controls, readings).progress == readings.progress,
        compact_display(controls, readings).state == readings.state,
{
}

} // verus!
