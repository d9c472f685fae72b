//! Decisions of the native editor: keyboard, pointer drags, button colors and
//! the activity rail.
use vstd::prelude::*;

use crate::editor::{
    gesture, restart_matching, restart_requested, toggle_value, EditEvent, EditorController, Kept,
    TargetStepDirection,
};
use crate::params::{
    initial_controls, with_param, Controls, GainSnapParams, GAIN_MAX_DB, GAIN_MIN_DB, PARAM_MATCH,
    PARAM_RMS_MODE, PARAM_TARGET_DB, TARGET_MAX_DB, TARGET_MIN_DB,
};
use crate::single;
use crate::status::{initial_readings, GuiStatus, MatchActivity, MatchState, Readings, SILENT_DB};
use crate::text;

verus! {

/// Preferred logical editor width.
pub const WINDOW_WIDTH: u32 = 250;

/// Preferred logical editor height.
pub const WINDOW_HEIGHT: u32 = 424;

/// Minimum logical editor width.
pub const MIN_WINDOW_WIDTH: u32 = WINDOW_WIDTH;

/// Minimum logical editor height.
pub const MIN_WINDOW_HEIGHT: u32 = WINDOW_HEIGHT;

/// Maximum logical editor width.
pub const MAX_WINDOW_WIDTH: u32 = 480;

/// Maximum logical editor height.
pub const MAX_WINDOW_HEIGHT: u32 = 520;

/// Number of segments of the activity rail.
pub const ACTIVITY_SEGMENT_COUNT: usize = 3;

/// Background color.
pub const BG_PRIMARY: u32 = 0x1b1e1e;

/// Border color.
pub const BORDER: u32 = 0x282b2b;

/// Emphasized border color.
pub const BORDER_EMPHASIS: u32 = 0x404342;

/// Accent color.
pub const ACCENT: u32 = 0xe95843;

/// Color of RMS levels.
pub const RMS_COLOR: u32 = 0x4ab9ae;

/// Color of a missing signal.
pub const ACCENT_DANGER: u32 = 0xef4c3d;

/// Text color.
pub const TEXT_PRIMARY: u32 = 0xd8d7d3;

/// Muted text color.
pub const TEXT_MUTED: u32 = 0x999b9a;

/// Gain at which the upper part of the gain scale begins: 36 dB.
pub const GAIN_MARKER_HIGH_DB: u32 = 0x4210_0000;

/// Meter level of [`GAIN_MARKER_HIGH_DB`]: -3 dB.
pub const GAIN_MARKER_HIGH_LEVEL_DB: u32 = 0xc040_0000;

/// Meter level of unity gain: -12 dB.
pub const GAIN_MARKER_NEUTRAL_DB: u32 = 0xc140_0000;

/// Coarse step of the gain knob: 1 dB.
pub const KNOB_STEP_DB: u32 = 0x3f80_0000;

/// Step of the knob with Shift held, and of the gain marker: 0.1 dB.
pub const MARKER_STEP_DB: u32 = 0x3dcc_cccd;

/// Step of the gain marker with Shift held: 0.01 dB.
pub const FINE_MARKER_STEP_DB: u32 = 0x3c23_d70a;

/// The size with which the editor opens.
pub fn preferred_window_size() -> (result: (u32, u32))
    ensures
        result == (250u32, 424u32),
        MIN_WINDOW_WIDTH <= result.0 <= MAX_WINDOW_WIDTH,
        MIN_WINDOW_HEIGHT <= result.1 <= MAX_WINDOW_HEIGHT,
{
    (WINDOW_WIDTH, WINDOW_HEIGHT)
}

/// A key as the editor understands it.
#[derive(Clone, Copy, Debug, PartialEq, Eq, Structural)]
pub enum Key {
    /// Arrow up.
    Up,
    /// Arrow right.
    Right,
    /// Arrow down.
    Down,
    /// Arrow left.
    Left,
    /// Home.
    Home,
    /// End.
    End,
    /// Space.
    Space,
    /// Enter.
    Enter,
    /// Any other key.
    Other,
}

/// The key that a toolkit name stands for.
pub open spec fn named_key(name: Seq<char>) -> Key {
    if name == "up"@ {
        Key::Up
    } else if name == "right"@ {
        Key::Right
    } else if name == "down"@ {
        Key::Down
    } else if name == "left"@ {
        Key::Left
    } else if name == "home"@ {
        Key::Home
    } else if name == "end"@ {
        Key::End
    } else if name == "space"@ {
        Key::Space
    } else if name == "enter"@ {
        Key::Enter
    } else {
        Key::Other
    }
}

/// Compute [`named_key`].
pub fn key_named(name: &str) -> (result: Key)
    ensures
        result == named_key(name@),
{
    if text::equal(name, "up") {
        Key::Up
    } else if text::equal(name, "right") {
        Key::Right
    } else if text::equal(name, "down") {
        Key::Down
    } else if text::equal(name, "left") {
        Key::Left
    } else if text::equal(name, "home") {
        Key::Home
    } else if text::equal(name, "end") {
        Key::End
    } else if text::equal(name, "space") {
        Key::Space
    } else if text::equal(name, "enter") {
        Key::Enter
    } else {
        Key::Other
    }
}

/// Modifier keys that are held.
#[derive(Clone, Copy, Debug, PartialEq, Eq, Structural)]
pub struct Modifiers {
    /// Shift.
    pub shift: bool,
    /// Control.
    pub control: bool,
    /// Alt.
    pub alt: bool,
    /// The platform key.
    pub platform: bool,
    /// Function; native arrow keys carry it as metadata.
    pub function: bool,
    /// Whether the toolkit counts any modifier as held.
    pub any: bool,
}

/// What has the keyboard focus.
#[derive(Clone, Copy, Debug, PartialEq, Eq, Structural)]
pub struct Focus {
    /// One of the buttons.
    pub button: bool,
    /// The target meter.
    pub meter: bool,
    /// The gain knob.
    pub knob: bool,
    /// Whether the gain marker of the meter is selected, not the target marker.
    pub gain_marker: bool,
}

/// What a key press does.
#[derive(Clone, Copy, Debug, PartialEq, Eq, Structural)]
pub enum KeyAction {
    /// Nothing; the host may use the key.
    Pass,
    /// Nothing yet; the button reacts when the key is released.
    Consume,
    /// Step the gain by hand.
    StepGain {
        /// Direction of the step.
        direction: TargetStepDirection,
        /// Size of the step.
        step: u32,
    },
    /// Step the target.
    StepTarget {
        /// Direction of the step.
        direction: TargetStepDirection,
        /// Whether the step is fine.
        fine: bool,
    },
    /// Set the target.
    SetTarget(u32),
}

/// The direction of an arrow key.
pub open spec fn arrow(key: Key) -> Option<TargetStepDirection> {
    match key {
        Key::Up | Key::Right => Some(TargetStepDirection::Up),
        Key::Down | Key::Left => Some(TargetStepDirection::Down),
        _ => None,
    }
}

/// The size of a gain step: the knob is coarser than the marker, and Shift makes
/// either finer.
pub open spec fn gain_step(knob: bool, shift: bool) -> u32 {
    if knob {
        if shift {
            MARKER_STEP_DB
        } else {
            KNOB_STEP_DB
        }
    } else {
        if shift {
            FINE_MARKER_STEP_DB
        } else {
            MARKER_STEP_DB
        }
    }
}

/// What a key press does, by what has the focus.
pub open spec fn key_action(focus: Focus, key: Key, m: Modifiers) -> KeyAction {
    if focus.button {
        if (key == Key::Space || key == Key::Enter) && !m.any {
            KeyAction::Consume
        } else {
            KeyAction::Pass
        }
    } else if !(focus.meter || focus.knob) || m.control || m.alt || m.platform {
        KeyAction::Pass
    } else {
        match arrow(key) {
            Some(direction) => if focus.knob || focus.gain_marker {
                KeyAction::StepGain { direction, step: gain_step(focus.knob, m.shift) }
            } else {
                KeyAction::StepTarget { direction, fine: m.shift }
            },
            None => if m.function || !focus.meter || focus.gain_marker {
                KeyAction::Pass
            } else if key == Key::Home {
                KeyAction::SetTarget(TARGET_MIN_DB)
            } else if key == Key::End {
                KeyAction::SetTarget(TARGET_MAX_DB)
            } else {
                KeyAction::Pass
            },
        }
    }
}

/// Compute [`key_action`].
pub fn handle_key_down(focus: Focus, key: Key, m: Modifiers) -> (result: KeyAction)
    ensures
        result == key_action(focus, key, m),
{
    if focus.button {
        // A clean Space or Enter activates the button when it is released.
        // Consuming the press keeps the host from using it for transport as well.
        return match key {
            Key::Space | Key::Enter => {
                if m.any {
                    KeyAction::Pass
                } else {
                    KeyAction::Consume
                }
            },
            _ => KeyAction::Pass,
        };
    }
    if !focus.meter && !focus.knob {
        return KeyAction::Pass;
    }
    if m.control || m.alt || m.platform {
        return KeyAction::Pass;
    }
    let direction: Option<TargetStepDirection> = match key {
        Key::Up | Key::Right => Some(TargetStepDirection::Up),
        Key::Down | Key::Left => Some(TargetStepDirection::Down),
        _ => None,
    };
    if let Some(direction) = direction {
        if focus.knob || focus.gain_marker {
            let step: u32 = if focus.knob {
                if m.shift {
                    MARKER_STEP_DB
                } else {
                    KNOB_STEP_DB
                }
            } else if m.shift {
                FINE_MARKER_STEP_DB
            } else {
                MARKER_STEP_DB
            };
            return KeyAction::StepGain { direction, step };
        }
        return KeyAction::StepTarget { direction, fine: m.shift };
    }
    if m.function {
        return KeyAction::Pass;
    }
    if focus.meter && !focus.gain_marker {
        return match key {
            Key::Home => KeyAction::SetTarget(TARGET_MIN_DB),
            Key::End => KeyAction::SetTarget(TARGET_MAX_DB),
            _ => KeyAction::Pass,
        };
    }
    KeyAction::Pass
}

/// Pointer state of the meter and the knob.
#[derive(Clone, Copy, Debug, PartialEq, Eq, Structural)]
pub struct Drags {
    /// Whether the target marker is dragged.
    pub target: bool,
    /// Whether the gain marker is dragged.
    pub gain: bool,
    /// Whether the gain marker is selected.
    pub gain_marker_selected: bool,
    /// Whether the knob is dragged.
    pub knob: bool,
}

/// What a pointer event on the meter or the knob moves.
#[derive(Clone, Copy, Debug, PartialEq, Eq, Structural)]
pub enum DragAction {
    /// Nothing.
    Nothing,
    /// The target.
    Target,
    /// The gain.
    Gain,
    /// The gain's text field is opened.
    EditGain,
}

impl Drags {
    /// Nothing is dragged.
    pub fn new() -> (result: Self)
        ensures
            result == (Drags {
                target: false,
                gain: false,
                gain_marker_selected: false,
                knob: false,
            }),
    {
        Drags { target: false, gain: false, gain_marker_selected: false, knob: false }
    }

    /// Press on the meter: right of its track the gain marker is taken, else the
    /// target marker. Before the meter was laid out nothing is taken.
    pub fn meter_mouse_down(&mut self, right_of_track: Option<bool>) -> (result: DragAction)
        ensures
            match right_of_track {
                Some(true) => result == DragAction::Gain && *final(self) == (Drags {
                    gain: true,
                    gain_marker_selected: true,
                    ..*old(self)
                }),
                Some(false) => result == DragAction::Target && *final(self) == (Drags {
                    target: true,
                    gain_marker_selected: false,
                    ..*old(self)
                }),
                None => result == DragAction::Nothing && *final(self) == *old(self),
            },
    {
        match right_of_track {
            Some(right) => {
                self.gain_marker_selected = right;
                if right {
                    self.gain = true;
                    DragAction::Gain
                } else {
                    self.target = true;
                    DragAction::Target
                }
            },
            None => DragAction::Nothing,
        }
    }

    /// Move over the meter: what was taken follows while the button is held.
    pub fn meter_mouse_move(&self, left_held: bool) -> (result: DragAction)
        ensures
            result == (if !left_held {
                DragAction::Nothing
            } else if self.gain {
                DragAction::Gain
            } else if self.target {
                DragAction::Target
            } else {
                DragAction::Nothing
            }),
    {
        if (!self.target && !self.gain) || !left_held {
            return DragAction::Nothing;
        }
        if self.gain {
            DragAction::Gain
        } else {
            DragAction::Target
        }
    }

    /// Release over the meter: both markers are let go, the selection stays.
    pub fn meter_mouse_up(&mut self)
        ensures
            *final(self) == (Drags { target: false, gain: false, ..*old(self) }),
    {
        self.target = false;
        self.gain = false;
    }

    /// Press on the knob: it is taken, or its text field is opened by a double
    /// click.
    pub fn knob_mouse_down(&mut self, click_count: usize) -> (result: DragAction)
        ensures
            result == (if click_count >= 2 {
                DragAction::EditGain
            } else {
                DragAction::Gain
            }),
            *final(self) == (Drags { knob: click_count < 2, ..*old(self) }),
    {
        if click_count >= 2 {
            self.knob = false;
            return DragAction::EditGain;
        }
        self.knob = true;
        DragAction::Gain
    }

    /// Move over the knob.
    pub fn knob_mouse_move(&self, left_held: bool) -> (result: DragAction)
        ensures
            result == (if self.knob && left_held {
                DragAction::Gain
            } else {
                DragAction::Nothing
            }),
    {
        if self.knob && left_held {
            DragAction::Gain
        } else {
            DragAction::Nothing
        }
    }

    /// Release over the knob.
    pub fn knob_mouse_up(&mut self)
        ensures
            *final(self) == (Drags { knob: false, ..*old(self) }),
    {
        self.knob = false;
    }
}

/// The controls after Normalize: Peak mode, 0 dBFS, Match on, measured afresh.
pub open spec fn normalized(controls: Controls) -> Controls {
    restart_requested(
        Controls {
            rms_mode: false,
            target_db: TARGET_MAX_DB,
            match_requested: true,
            ..controls
        },
    )
}

/// The messages to the host that Normalize leads to.
pub open spec fn normalize_events(controls: Controls) -> Seq<EditEvent> {
    let peak = with_param(controls, PARAM_RMS_MODE, single::ZERO);
    let full_scale = with_param(peak, PARAM_TARGET_DB, TARGET_MAX_DB);
    gesture(controls, PARAM_RMS_MODE, single::ZERO) + gesture(peak, PARAM_TARGET_DB, TARGET_MAX_DB)
        + gesture(full_scale, PARAM_MATCH, single::ONE)
}

/// Set the target to 0 dBFS in Peak mode and match afresh.
pub fn normalize(
    controller: &mut EditorController,
    params: &mut GainSnapParams,
    events: &mut Vec<EditEvent>,
)
    ensures
        final(params)@ == normalized(old(params)@),
        final(events)@ == old(events)@ + normalize_events(old(params)@),
        final(controller)@ == (Kept { target_text_param: TARGET_MAX_DB, ..old(controller)@ }),
{
    toggle_value(params, events, PARAM_RMS_MODE, false);
    controller.set_target_db(params, events, TARGET_MAX_DB);
    toggle_value(params, events, PARAM_MATCH, true);
    restart_matching(params);
    assert(events@ =~= old(events)@ + normalize_events(old(params)@));
}

/// Switch between Peak and RMS.
pub fn toggle_mode(params: &mut GainSnapParams, events: &mut Vec<EditEvent>)
    ensures
        final(params)@ == (Controls { rms_mode: !old(params)@.rms_mode, ..old(params)@ }),
        final(events)@ == old(events)@ + gesture(
            old(params)@,
            PARAM_RMS_MODE,
            single::flag(!old(params)@.rms_mode),
        ),
{
    let rms_mode: bool = params.rms_mode();
    toggle_value(params, events, PARAM_RMS_MODE, !rms_mode);
}

/// Switch Match.
pub fn toggle_match(params: &mut GainSnapParams, events: &mut Vec<EditEvent>)
    ensures
        final(params)@ == (Controls {
            match_requested: !old(params)@.match_requested,
            ..old(params)@
        }),
        final(events)@ == old(events)@ + gesture(
            old(params)@,
            PARAM_MATCH,
            single::flag(!old(params)@.match_requested),
        ),
{
    let requested: bool = params.match_requested();
    toggle_value(params, events, PARAM_MATCH, !requested);
}

/// Segment of the activity rail that is lit.
pub fn activity_stage(activity: MatchActivity) -> (result: Option<usize>)
    ensures
        result == (match activity {
            MatchActivity::Listening => Some(0usize),
            MatchActivity::Adjusting => Some(1usize),
            MatchActivity::Matched => Some(2usize),
            _ => None,
        }),
        result is Some ==> result->0 < ACTIVITY_SEGMENT_COUNT,
{
    match activity {
        MatchActivity::Listening => Some(0),
        MatchActivity::Adjusting => Some(1),
        MatchActivity::Matched => Some(2),
        MatchActivity::Ready | MatchActivity::NoSignal | MatchActivity::Held => None,
    }
}

/// Label of an activity.
pub open spec fn activity_name(activity: MatchActivity) -> Seq<char> {
    match activity {
        MatchActivity::Ready => "Ready"@,
        MatchActivity::NoSignal => "No signal"@,
        MatchActivity::Held => "Held"@,
        MatchActivity::Listening => "Listening"@,
        MatchActivity::Adjusting => "Adjusting"@,
        MatchActivity::Matched => "Matched"@,
    }
}

/// Compute [`activity_name`].
pub fn activity_label_text(activity: MatchActivity) -> (result: &'static str)
    ensures
        result@ == activity_name(activity),
{
    match activity {
        MatchActivity::Ready => "Ready",
        MatchActivity::NoSignal => "No signal",
        MatchActivity::Held => "Held",
        MatchActivity::Listening => "Listening",
        MatchActivity::Adjusting => "Adjusting",
        MatchActivity::Matched => "Matched",
    }
}

/// The label that is shown: that of the activity while Match is on.
pub fn shown_label(match_requested: bool, activity: MatchActivity) -> (result: &'static str)
    ensures
        result@ == (if match_requested {
            activity_name(activity)
        } else {
            "Manual"@
        }),
{
    if match_requested {
        activity_label_text(activity)
    } else {
        "Manual"
    }
}

/// Color of the activity label.
pub fn activity_label_color(activity: MatchActivity) -> (result: u32)
    ensures
        result == (match activity {
            MatchActivity::NoSignal => ACCENT_DANGER,
            MatchActivity::Ready => TEXT_MUTED,
            MatchActivity::Held => TEXT_MUTED,
            _ => TEXT_PRIMARY,
        }),
{
    match activity {
        MatchActivity::NoSignal => ACCENT_DANGER,
        MatchActivity::Ready | MatchActivity::Held => TEXT_MUTED,
        MatchActivity::Listening | MatchActivity::Adjusting | MatchActivity::Matched => TEXT_PRIMARY,
    }
}

/// Whether a segment of the activity rail is lit.
pub fn segment_is_lit(activity: MatchActivity, index: usize) -> (result: bool)
    ensures
        result == ((index == 0 && activity == MatchActivity::Listening) || (index == 1 && activity
            == MatchActivity::Adjusting) || (index == 2 && activity == MatchActivity::Matched)),
{
    match activity_stage(activity) {
        Some(stage) => stage == index,
        None => false,
    }
}

/// Label of the mode button.
pub fn mode_label(rms_mode: bool) -> (result: &'static str)
    ensures
        result@ == (if rms_mode {
            "RMS"@
        } else {
            "PEAK"@
        }),
{
    if rms_mode {
        "RMS"
    } else {
        "PEAK"
    }
}

/// Colors of a button.
#[derive(Clone, Copy, Debug, PartialEq, Eq, Structural)]
pub struct ButtonColors {
    /// Fill.
    pub background: u32,
    /// Label.
    pub foreground: u32,
    /// Border.
    pub border: u32,
}

/// Colors of a button: an active one is filled with the accent, an idle one is
/// muted unless it is an accent action, and a disabled one is muted in any case.
pub fn button_colors(accent_action: bool, active: bool, enabled: bool) -> (result: ButtonColors)
    ensures
        result.background == (if active {
            ACCENT
        } else {
            BG_PRIMARY
        }),
        result.foreground == (if !enabled {
            TEXT_MUTED
        } else if active {
            TEXT_PRIMARY
        } else if accent_action {
            ACCENT
        } else {
            TEXT_MUTED
        }),
        result.border == (if enabled && active {
            ACCENT
        } else {
            BORDER
        }),
{
    let background: u32 = if active {
        ACCENT
    } else {
        BG_PRIMARY
    };
    let foreground: u32 = if active {
        TEXT_PRIMARY
    } else if accent_action {
        ACCENT
    } else {
        TEXT_MUTED
    };
    let border: u32 = if enabled && active {
        ACCENT
    } else {
        BORDER
    };
    ButtonColors {
        background,
        foreground: if enabled {
            foreground
        } else {
            TEXT_MUTED
        },
        border,
    }
}

/// Colors of the two meter markers: the selected one carries the accent while
/// the meter has the focus.
pub fn marker_colors(focused: bool, gain_selected: bool) -> (result: (u32, u32))
    ensures
        result.0 == (if focused && !gain_selected {
            ACCENT
        } else {
            TEXT_PRIMARY
        }),
        result.1 == (if focused && gain_selected {
            ACCENT
        } else {
            TEXT_PRIMARY
        }),
{
    (
        if focused && !gain_selected {
            ACCENT
        } else {
            TEXT_PRIMARY
        },
        if focused && gain_selected {
            ACCENT
        } else {
            TEXT_PRIMARY
        },
    )
}

/// A color with an opacity, as the toolkit takes it: the color's three bytes,
/// then the opacity.
pub open spec fn faded(color: u32, alpha: u8) -> int {
    (color as int % 0x100_0000) * 0x100 + alpha
}

/// Compute [`faded`].
pub fn with_alpha(color: u32, alpha: u8) -> (result: u32)
    ensures
        result == faded(color, alpha),
{
    (color % 0x100_0000) * 0x100 + alpha as u32
}

/// A color at full opacity.
pub fn solid(color: u32) -> (result: u32)
    ensures
        result == faded(color, 255),
{
    with_alpha(color, 255)
}

/// Color of a segment of the activity rail: the lit one pulses.
pub fn segment_color(activity: MatchActivity, index: usize, pulse_alpha: u8) -> (result: u32)
    ensures
        result == (if (index == 0 && activity == MatchActivity::Listening) || (index == 1
            && activity == MatchActivity::Adjusting) || (index == 2 && activity
            == MatchActivity::Matched) {
            faded(ACCENT, pulse_alpha)
        } else {
            faded(BORDER_EMPHASIS, 255)
        }),
{
    if segment_is_lit(activity, index) {
        with_alpha(ACCENT, pulse_alpha)
    } else {
        solid(BORDER_EMPHASIS)
    }
}

/// Fill of the Match button: it pulses while Match is on.
pub fn match_fill(match_requested: bool, pulse_alpha: u8) -> (result: u32)
    ensures
        result == (if match_requested {
            faded(ACCENT, pulse_alpha)
        } else {
            faded(BG_PRIMARY, 255)
        }),
{
    if match_requested {
        with_alpha(ACCENT, pulse_alpha)
    } else {
        solid(BG_PRIMARY)
    }
}

/// Border of a control that shows its focus; `idle` is its color without it.
pub fn focus_border(focused: bool, idle: u32) -> (result: u32)
    ensures
        result == (if focused {
            faded(ACCENT, 255)
        } else {
            faded(idle, 255)
        }),
{
    if focused {
        solid(ACCENT)
    } else {
        solid(idle)
    }
}

/// A part of the gain scale beside the meter.
#[derive(Clone, Copy, Debug, PartialEq, Eq, Structural)]
pub enum GainScale {
    /// Attenuation.
    Below,
    /// From unity gain to [`GAIN_MARKER_HIGH_DB`].
    Middle,
    /// Beyond [`GAIN_MARKER_HIGH_DB`].
    High,
}

/// The gain that the marker shows, with the part of the scale that it is on.
pub fn gain_marker_part(gain_db: u32) -> (result: (u32, GainScale))
    ensures
        result.0 == single::clamped(gain_db, GAIN_MIN_DB, GAIN_MAX_DB),
        result.1 == (if single::below(GAIN_MARKER_HIGH_DB, result.0) {
            GainScale::High
        } else if single::at_most(single::ZERO, result.0) {
            GainScale::Middle
        } else {
            GainScale::Below
        }),
{
    let gain: u32 = single::clamp(gain_db, GAIN_MIN_DB, GAIN_MAX_DB);
    let part: GainScale = if single::less(GAIN_MARKER_HIGH_DB, gain) {
        GainScale::High
    } else if single::less_or_equal(single::ZERO, gain) {
        GainScale::Middle
    } else {
        GainScale::Below
    };
    (gain, part)
}

/// The meter level of the marker, with the part of the scale that it is on.
pub fn marker_level_part(level_db: u32) -> (result: (u32, GainScale))
    ensures
        result.0 == single::clamped(level_db, TARGET_MIN_DB, TARGET_MAX_DB),
        result.1 == (if single::below(GAIN_MARKER_HIGH_LEVEL_DB, result.0) {
            GainScale::High
        } else if single::at_most(GAIN_MARKER_NEUTRAL_DB, result.0) {
            GainScale::Middle
        } else {
            GainScale::Below
        }),
{
    let level: u32 = single::clamp(level_db, TARGET_MIN_DB, TARGET_MAX_DB);
    let part: GainScale = if single::less(GAIN_MARKER_HIGH_LEVEL_DB, level) {
        GainScale::High
    } else if single::less_or_equal(GAIN_MARKER_NEUTRAL_DB, level) {
        GainScale::Middle
    } else {
        GainScale::Below
    };
    (level, part)
}

/// Level of the picture of a running match: -12 dBFS.
pub const SCREENSHOT_LEVEL_DB: u32 = 0xc140_0000;

/// The store and the status from which the editor's pictures are drawn: untouched
/// or matching, in either mode, with the level that the meters show.
pub fn screenshot_fixture(matching: bool, rms: bool) -> (result: (GainSnapParams, GuiStatus))
    ensures
        result.0@ == (Controls {
            match_requested: matching,
            rms_mode: rms,
            ..initial_controls()
        }),
        result.1@ == (if matching {
            Readings {
                input_peak_db: SCREENSHOT_LEVEL_DB,
                output_peak_db: SCREENSHOT_LEVEL_DB,
                output_rms_db: SCREENSHOT_LEVEL_DB,
                state: MatchState::Measuring,
                activity: MatchActivity::Listening,
                ..initial_readings()
            }
        } else {
            initial_readings()
        }),
{
    let mut params = GainSnapParams::new();
    params.set_param(PARAM_MATCH, single::from_bool(matching));
    params.set_param(PARAM_RMS_MODE, single::from_bool(rms));
    let mut status = GuiStatus::new();
    let state: MatchState = if matching {
        MatchState::Measuring
    } else {
        MatchState::Ready
    };
    let level_db: u32 = if matching {
        SCREENSHOT_LEVEL_DB
    } else {
        SILENT_DB
    };
    status.update(level_db, level_db, single::ZERO, single::ZERO, state);
    status.update_rms(level_db);
    (params, status)
}

/// Normalize forces Peak mode, a target of 0 dBFS and a running match, requests
/// a fresh measurement, and leaves the gain as it was.
pub proof fn normalize_forces_peak_and_full_scale(controls: Controls)
    ensures
        !normalized(controls).rms_mode,
        normalized(controls).target_db == TARGET_MAX_DB,
        normalized(controls).match_requested,
        normalized(controls).restart_generation != controls.restart_generation,
        normalized(controls).locked_gain_db == controls.locked_gain_db,
{
}

/// A key that the editor does not own is left to the host: without a focused
/// control, with a command modifier held, or where no control reacts to it.
pub proof fn foreign_keys_are_left_to_the_host(focus: Focus, key: Key, m: Modifiers)
    ensures
        !focus.button && !focus.meter && !focus.knob ==> key_action(focus, key, m)
            == KeyAction::Pass,
        !focus.button && (m.control || m.alt || m.platform) ==> key_action(focus, key, m)
            == KeyAction::Pass,
        key == Key::Other ==> key_action(focus, key, m) == KeyAction::Pass,
        focus.button && m.any ==> key_action(focus, key, m) == KeyAction::Pass,
{
}

/// The Function modifier, which native arrow keys carry, does not change what an
/// arrow key does.
pub proof fn function_does_not_change_arrows(focus: Focus, key: Key, m: Modifiers)
    requires
        arrow(key) is Some,
    ensures
        key_action(focus, key, m) == key_action(focus, key, (Modifiers { function: !m.function, ..m })),
{
}

/// An arrow key steps what has the focus: the gain where the knob has it or the
/// gain marker is selected, by one decibel on the knob and a tenth on the marker,
/// each ten times finer with Shift; the target otherwise.
pub proof fn arrows_step_what_has_the_focus(focus: Focus, m: Modifiers, key: Key)
    requires
        !focus.button,
        focus.meter || focus.knob,
        !m.control && !m.alt && !m.platform,
        key == Key::Up || key == Key::Right || key == Key::Down || key == Key::Left,
    ensures
        ({
            let up = key == Key::Up || key == Key::Right;
            match key_action(focus, key, m) {
                KeyAction::StepGain { direction, step } => {
                    &&& focus.knob || focus.gain_marker
                    &&& direction == TargetStepDirection::Up <==> up
                    &&& focus.knob && !m.shift ==> step == 0x3f80_0000
                    &&& focus.knob && m.shift ==> step == 0x3dcc_cccd
                    &&& !focus.knob && !m.shift ==> step == 0x3dcc_cccd
                    &&& !focus.knob && m.shift ==> step == 0x3c23_d70a
                },
                KeyAction::StepTarget { direction, fine } => {
                    &&& !focus.knob && !focus.gain_marker
                    &&& direction == TargetStepDirection::Up <==> up
                    &&& fine == m.shift
                },
                _ => false,
            }
        }),
{
}

/// Home and End take the target to -36 dBFS and 0 dBFS where its marker is
/// selected on a focused meter, and are left to the host elsewhere.
pub proof fn home_and_end_set_the_target(focus: Focus, m: Modifiers)
    requires
        !focus.button,
        focus.meter || focus.knob,
        !m.control && !m.alt && !m.platform,
    ensures
        ({
            let sets = focus.meter && !focus.gain_marker && !m.function;
            &&& sets ==> key_action(focus, Key::Home, m) == KeyAction::SetTarget(0xc210_0000)
            &&& sets ==> key_action(focus, Key::End, m) == KeyAction::SetTarget(0)
            &&& !sets ==> key_action(focus, Key::Home, m) == KeyAction::Pass
            &&& !sets ==> key_action(focus, Key::End, m) == KeyAction::Pass
            &&& key_action(focus, Key::Space, m) == KeyAction::Pass
            &&& key_action(focus, Key::Enter, m) == KeyAction::Pass
        }),
{
}

/// A focused button takes a clean Space or Enter, and leaves every other key to
/// the host.
pub proof fn buttons_take_space_and_enter(focus: Focus, key: Key, m: Modifiers)
    requires
        focus.button,
    ensures
        key_action(focus, key, m) == (if (key == Key::Space || key == Key::Enter) && !m.any {
            KeyAction::Consume
        } else {
            KeyAction::Pass
        }),
{
}

/// The keys go by their toolkit names, and every other name is no key of the
/// editor.
pub proof fn keys_go_by_their_names(name: Seq<char>)
    ensures
        named_key("up"@) == Key::Up,
        named_key("right"@) == Key::Right,
        named_key("down"@) == Key::Down,
        named_key("left"@) == Key::Left,
        named_key("home"@) == Key::Home,
        named_key("end"@) == Key::End,
        named_key("space"@) == Key::Space,
        named_key("enter"@) == Key::Enter,
        named_key(name) == Key::Other <==> {
            &&& name != "up"@
            &&& name != "right"@
            &&& name != "down"@
            &&& name != "left"@
            &&& name != "home"@
            &&& name != "end"@
            &&& name != "space"@
            &&& name != "enter"@
        },
{
    reveal_strlit("up");
    reveal_strlit("right");
    reveal_strlit("down");
    reveal_strlit("left");
    reveal_strlit("home");
    reveal_strlit("end");
    reveal_strlit("space");
    reveal_strlit("enter");
    assert("up"@.len() == 2 && "up"@[0] == 'u');
    assert("right"@.len() == 5 && "right"@[0] == 'r');
    assert("down"@.len() == 4 && "down"@[0] == 'd');
    assert("left"@.len() == 4 && "left"@[0] == 'l');
    assert("home"@.len() == 4 && "home"@[0] == 'h');
    assert("end"@.len() == 3 && "end"@[0] == 'e');
    assert("space"@.len() == 5 && "space"@[0] == 's');
    assert("enter"@.len() == 5 && "enter"@[0] == 'e');
}

/// Normalize changes the mode, the target, Match and the count of restarts, and
/// tells the host of the first three, in that order, as they are stored.
pub proof fn normalize_is_told_in_order(controls: Controls)
    ensures
        normalized(controls) == (Controls {
            rms_mode: false,
            target_db: 0,
            match_requested: true,
            restart_generation: normalized(controls).restart_generation,
            ..controls
        }),
        controls.restart_generation < u32::MAX ==> normalized(controls).restart_generation
            == controls.restart_generation + 1,
        controls.restart_generation == u32::MAX ==> normalized(controls).restart_generation == 0,
        normalize_events(controls) == seq![
            EditEvent::Begin(4),
            EditEvent::Value(4, 0),
            EditEvent::End(4),
            EditEvent::Begin(1),
            EditEvent::Value(1, 0),
            EditEvent::End(1),
            EditEvent::Begin(2),
            EditEvent::Value(2, 0x3f80_0000),
            EditEvent::End(2),
        ],
{
}

/// A color keeps its red, green and blue, and gets its opacity behind them.
pub proof fn colors_keep_their_channels(color: u32, alpha: u8)
    requires
        color < 0x100_0000,
    ensures
        faded(color, alpha) / 0x100 == color,
        faded(color, alpha) % 0x100 == alpha,
        activity_name(MatchActivity::Ready) == "Ready"@,
        activity_name(MatchActivity::NoSignal) == "No signal"@,
        activity_name(MatchActivity::Held) == "Held"@,
        activity_name(MatchActivity::Listening) == "Listening"@,
        activity_name(MatchActivity::Adjusting) == "Adjusting"@,
        activity_name(MatchActivity::Matched) == "Matched"@,
{
}

} // verus!
