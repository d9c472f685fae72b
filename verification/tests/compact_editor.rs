use gainsnap::editor::{
    clamp_fraction, meter_response_seconds, sanitize_meter_level_db, smooth_meter_level_db,
    step_target_db, target_number_text, target_step, EditEvent, EditorController,
    TargetStepDirection, METER_MAX_ELAPSED_SECONDS,
};
use gainsnap::gui::{
    changed_value, is_major_tick, marker_place, needs_realtime_redraw, preferred_window_size,
    reduce_message, status_label, status_tone, text_field_step, viewport, CompactSnapshot,
    EditorMessage, MarkerPlace, MeterAction, MeterInput, MeterKey, MeterState, Tone,
    TARGET_METER_TICK_COUNT,
};
use gainsnap::params::{
    GainSnapParams, PARAM_MATCH, PARAM_TARGET_DB, TARGET_MAX_DB, TARGET_MIN_DB,
};
use gainsnap::status::{GuiStatus, MatchState};

const CONTROL_WIDTH: f32 = 68.0;
const METER_HEIGHT: f32 = 148.0;
const TRACK_INSET: f32 = 2.0;
const MARKER_HEIGHT: f32 = 8.0;

fn f(bits: u32) -> f32 {
    f32::from_bits(bits)
}

fn set(params: &mut GainSnapParams, id: u32, value: f32) {
    params.set_param(id, value.to_bits());
}

fn normalize(db: f32) -> f32 {
    let (min, max) = (f(TARGET_MIN_DB), f(TARGET_MAX_DB));
    ((db - min) / (max - min)).clamp(0.0, 1.0)
}

fn denormalize(fraction: f32) -> f32 {
    let (min, max) = (f(TARGET_MIN_DB), f(TARGET_MAX_DB));
    (min + fraction.clamp(0.0, 1.0) * (max - min)).clamp(min, max)
}

fn level_fraction(db: f32) -> f32 {
    if db.is_finite() {
        normalize(db)
    } else {
        0.0
    }
}

fn stepped(target_db: f32, direction: TargetStepDirection, shift_held: bool) -> f32 {
    f(step_target_db(
        (target_db + f(direction.sign()) * f(target_step(shift_held))).to_bits(),
    ))
}

/// Vertical span of the marker's center: top, bottom, and the way between.
fn marker_span() -> (f32, f32, f32) {
    let top = TRACK_INSET + MARKER_HEIGHT * 0.5;
    let bottom = METER_HEIGHT - TRACK_INSET - MARKER_HEIGHT * 0.5;
    (top, bottom, bottom - top)
}

fn value_for_position(y: f32) -> f32 {
    let (_, bottom, travel) = marker_span();
    f(clamp_fraction(((bottom - y) / travel).to_bits()))
}

fn marker_center(db: f32) -> f32 {
    let (top, bottom, travel) = marker_span();
    let fraction = level_fraction(db);
    match marker_place(fraction.to_bits()) {
        MarkerPlace::Top => top,
        MarkerPlace::Bottom => bottom,
        MarkerPlace::Between => bottom - fraction * travel,
    }
}

fn inside(x: f32, y: f32) -> bool {
    (0.0..=CONTROL_WIDTH).contains(&x) && (0.0..=METER_HEIGHT).contains(&y)
}

/// The meter widget with its geometry.
struct Meter {
    state: MeterState,
    value: f32,
}

impl Meter {
    fn new(value: f32) -> Self {
        Self {
            state: MeterState {
                inert: false,
                hovered: false,
                pressed: false,
                focused: false,
                shift_held: false,
            },
            value: f(clamp_fraction(value.to_bits())),
        }
    }

    fn set_value(&mut self, value: f32) -> Option<f32> {
        let value = f(clamp_fraction(value.to_bits()));
        let distance = (self.value - value).abs();
        let changed = changed_value(value.to_bits(), distance.to_bits()).map(f)?;
        self.value = changed;
        Some(changed)
    }

    fn step(&mut self, direction: TargetStepDirection, fine: bool) -> Option<f32> {
        self.set_value(normalize(stepped(denormalize(self.value), direction, fine)))
    }

    fn handle(&mut self, input: MeterInput, y: f32) -> Option<f32> {
        match self.state.handle_input(input) {
            MeterAction::Keep => None,
            MeterAction::FollowPointer => self.set_value(value_for_position(y)),
            MeterAction::Raise { fine } => self.step(TargetStepDirection::Up, fine),
            MeterAction::Lower { fine } => self.step(TargetStepDirection::Down, fine),
            MeterAction::Lowest => self.set_value(0.0),
            MeterAction::Highest => self.set_value(1.0),
        }
    }

    fn press(&mut self, x: f32, y: f32) -> Option<f32> {
        let input = MeterInput::Press {
            inside: inside(x, y),
            primary: true,
        };
        self.handle(input, y)
    }

    fn release(&mut self, x: f32, y: f32) -> Option<f32> {
        let input = MeterInput::Release {
            inside: inside(x, y),
            primary: true,
        };
        self.handle(input, y)
    }

    fn drag(&mut self, x: f32, y: f32) -> Option<f32> {
        let input = MeterInput::Move {
            inside: inside(x, y),
        };
        self.handle(input, y)
    }

    fn key(&mut self, key: MeterKey) -> Option<f32> {
        self.handle(MeterInput::Key(key), 0.0)
    }
}

/// The editor's state with its text.
struct Editor {
    params: GainSnapParams,
    controller: EditorController,
    events: Vec<EditEvent>,
    text: String,
    shift_held: bool,
}

impl Editor {
    fn new() -> Self {
        Self::with_target(-12.0)
    }

    fn with_target(target_db: f32) -> Self {
        let mut params = GainSnapParams::new();
        set(&mut params, PARAM_TARGET_DB, target_db);
        let controller = EditorController::new(&params, &GuiStatus::new());
        let text = format!("{:.1}", f(controller.target_text_param()));
        Self {
            params,
            controller,
            events: Vec::new(),
            text,
            shift_held: false,
        }
    }

    fn send(&mut self, message: EditorMessage) {
        let rewrite = reduce_message(
            &mut self.controller,
            &mut self.params,
            &mut self.events,
            message,
        );
        if rewrite {
            self.text = format!("{:.1}", f(self.controller.target_text_param()));
        }
    }

    fn type_text(&mut self, text: &str, submitted: bool) {
        self.text = text.to_owned();
        let number = target_number_text(text)
            .parse::<f32>()
            .ok()
            .map(f32::to_bits);
        self.send(EditorMessage::TargetTextChanged { number, submitted });
    }

    fn step(&mut self, direction: TargetStepDirection) {
        let target_db = f(self.params.target_db());
        let next = stepped(target_db, direction, self.shift_held);
        self.send(EditorMessage::StepTarget {
            stepped: next.to_bits(),
            distance: (next - target_db).abs().to_bits(),
        });
    }

    fn press_key(&mut self, key: MeterKey, horizontal: bool) -> bool {
        match text_field_step(key, horizontal, true) {
            Some(direction) => {
                self.step(direction);
                true
            }
            None => false,
        }
    }
}

fn smoothed(current_db: f32, target_db: f32, milliseconds: u64) -> f32 {
    let seconds = milliseconds as f32 / 1_000.0;
    let current = f(sanitize_meter_level_db(current_db.to_bits()));
    let target = f(sanitize_meter_level_db(target_db.to_bits()));
    let elapsed = seconds.min(f(METER_MAX_ELAPSED_SECONDS));
    let response = f(meter_response_seconds(
        current_db.to_bits(),
        target_db.to_bits(),
    ));
    let amount = (elapsed / response).clamp(0.0, 1.0);
    f(smooth_meter_level_db(
        current_db.to_bits(),
        target_db.to_bits(),
        seconds.to_bits(),
        (target - current).abs().to_bits(),
        (current + (target - current) * amount).to_bits(),
    ))
}

#[test]
fn target_meter_maps_pointer_and_keyboard_input() {
    let mut slider = Meter::new(normalize(-12.0));

    assert_eq!(slider.press(14.0, 0.0), Some(1.0));
    assert_eq!(slider.drag(CONTROL_WIDTH * 0.5, METER_HEIGHT), Some(0.0));

    slider.set_value(1.0);
    assert_eq!(slider.key(MeterKey::Lower), Some(normalize(-1.0)));
}

#[test]
fn target_meter_keyboard_steps_use_db_units_and_shift_fine_step() {
    let mut slider = Meter::new(normalize(-12.0));
    slider.state.focused = true;

    slider
        .key(MeterKey::Raise)
        .expect("normal arrow input should emit a value");
    assert!((denormalize(slider.value) - (-11.0)).abs() < 0.0001);

    slider.handle(MeterInput::Modifiers { shift: true }, 0.0);
    slider
        .key(MeterKey::Raise)
        .expect("shift arrow input should emit a value");
    assert!((denormalize(slider.value) - (-10.9)).abs() < 0.0001);

    slider.handle(MeterInput::Modifiers { shift: false }, 0.0);
    slider
        .key(MeterKey::Lower)
        .expect("normal arrow input after Shift should emit a value");
    assert!((denormalize(slider.value) - (-11.9)).abs() < 0.0001);
}

#[test]
fn target_meter_keeps_projected_shift_modifier_when_rebuilt() {
    let previous = Meter::new(normalize(-12.0));
    let mut current = Meter::new(previous.value);
    current.state = MeterState {
        shift_held: true,
        ..previous.state
    };
    current.state.focused = true;
    current
        .key(MeterKey::Raise)
        .expect("rebuilt meter should accept keyboard input");

    assert!((denormalize(current.value) - (-11.9)).abs() < 0.0001);
}

#[test]
fn target_meter_mapping_uses_target_scale_and_clamps_endpoints() {
    let (min, max) = (f(TARGET_MIN_DB), f(TARGET_MAX_DB));
    assert_eq!(level_fraction(-120.0), 0.0);
    assert_eq!(level_fraction(min), 0.0);
    assert!((level_fraction(-18.0) - 0.5).abs() < f32::EPSILON);
    assert_eq!(level_fraction(max), 1.0);
    assert_eq!(level_fraction(24.0), 1.0);
    assert_eq!(level_fraction(f32::NAN), 0.0);

    assert_eq!(value_for_position(-10.0), 1.0);
    assert_eq!(value_for_position(200.0), 0.0);
    assert!((value_for_position(METER_HEIGHT * 0.5) - 0.5).abs() < f32::EPSILON);

    let bottom = marker_center(min);
    let middle = marker_center(-18.0);
    let top = marker_center(max);
    assert!(top < middle && middle < bottom);
    assert!((top - (TRACK_INSET + MARKER_HEIGHT * 0.5)).abs() < f32::EPSILON);
    assert!((bottom - (METER_HEIGHT - TRACK_INSET - MARKER_HEIGHT * 0.5)).abs() < f32::EPSILON);
}

#[test]
fn target_meter_round_trips_marker_centers_to_normalized_values() {
    for (db, expected) in [
        (f(TARGET_MIN_DB), 0.0),
        (-18.0, 0.5),
        (f(TARGET_MAX_DB), 1.0),
    ] {
        assert_eq!(value_for_position(marker_center(db)), expected);
    }
}

#[test]
fn target_meter_endpoint_triangle_clicks_are_noops_and_release_clears_pressed_state() {
    for (db, value) in [(f(TARGET_MIN_DB), 0.0), (f(TARGET_MAX_DB), 1.0)] {
        let y = marker_center(db);
        let mut meter = Meter::new(value);

        assert!(meter.press(44.0, y).is_none());
        assert!(meter.state.pressed);

        assert!(meter.release(44.0, y).is_none());
        assert!(!meter.state.pressed);
    }
}

#[test]
fn target_meter_accepts_pointer_input_across_the_invisible_rail_and_captures_release() {
    let mut meter = Meter::new(normalize(-12.0));

    let value = meter
        .press(1.0, METER_HEIGHT * 0.5)
        .expect("the expanded rail should accept a press away from the visible meter");
    assert!((denormalize(value) - -18.0).abs() < 0.5);
    assert!(meter.state.pressed);
    assert!(meter.state.focused);

    assert_eq!(meter.drag(-20.0, 0.0), Some(1.0));
    meter.release(-20.0, 0.0);
    assert!(!meter.state.pressed);
    assert!(!meter.state.hovered);
}

#[test]
fn target_meter_pointer_selection_updates_the_automated_target_parameter() {
    let mut editor = Editor::new();
    let mut meter = Meter::new(normalize(-12.0));
    let y = METER_HEIGHT * 0.5;
    for value in [meter.press(20.0, y), meter.release(20.0, y)] {
        if let Some(value) = value {
            editor.send(EditorMessage::TargetChanged(denormalize(value).to_bits()));
        }
    }

    assert!((f(editor.params.target_db()) - (-18.0)).abs() < 0.5);
    assert_eq!(
        editor.events,
        vec![
            EditEvent::Begin(PARAM_TARGET_DB),
            EditEvent::Value(PARAM_TARGET_DB, editor.params.target_db()),
            EditEvent::End(PARAM_TARGET_DB),
        ]
    );
}

#[test]
fn a_meter_that_refuses_input_or_lost_the_focus_keeps_its_value() {
    let mut meter = Meter::new(0.5);
    assert_eq!(meter.key(MeterKey::Home), None);
    assert_eq!(meter.drag(1.0, 1.0), None);
    meter.press(1.0, 1.0);
    assert!(meter.state.pressed);
    meter.handle(MeterInput::Focus(false), 0.0);
    assert!(!meter.state.pressed && !meter.state.focused);
    meter.handle(MeterInput::Focus(true), 0.0);
    assert_eq!(meter.key(MeterKey::Home), Some(0.0));
    assert_eq!(meter.key(MeterKey::End), Some(1.0));
    assert_eq!(meter.key(MeterKey::Other), None);
    meter.state.inert = true;
    let before = meter.state;
    assert_eq!(meter.press(1.0, 100.0), None);
    assert_eq!(meter.state, before);
    let mut secondary = Meter::new(0.5);
    let input = MeterInput::Press {
        inside: true,
        primary: false,
    };
    assert_eq!(secondary.handle(input, 0.0), None);
    assert!(!secondary.state.pressed);
}

#[test]
fn focused_target_entry_steps_with_arrows_and_preserves_focus() {
    let mut editor = Editor::new();

    assert!(editor.press_key(MeterKey::Raise, false));
    assert_eq!(f(editor.params.target_db()), -11.0);
    assert_eq!(editor.text, "-11.0");

    editor.shift_held = true;
    assert!(editor.press_key(MeterKey::Raise, false));
    assert_eq!(f(editor.params.target_db()), -10.9);
    assert_eq!(editor.text, "-10.9");

    assert_eq!(editor.events.len(), 6);
    assert_eq!(editor.events[0], EditEvent::Begin(PARAM_TARGET_DB));
    assert_eq!(
        editor.events[1],
        EditEvent::Value(PARAM_TARGET_DB, (-11.0_f32).to_bits())
    );
    assert_eq!(editor.events[2], EditEvent::End(PARAM_TARGET_DB));
    assert_eq!(editor.events[3], EditEvent::Begin(PARAM_TARGET_DB));
    assert!(matches!(
        editor.events[4],
        EditEvent::Value(PARAM_TARGET_DB, value) if (f(value) - -10.9).abs() < 0.0001
    ));
    assert_eq!(editor.events[5], EditEvent::End(PARAM_TARGET_DB));
}

#[test]
fn focused_target_entry_keeps_caret_navigation_and_consumes_endpoint_steps() {
    let mut editor = Editor::with_target(f(TARGET_MAX_DB));

    assert!(editor.press_key(MeterKey::Raise, false));
    assert_eq!(editor.params.target_db(), TARGET_MAX_DB);
    assert_eq!(editor.events, Vec::<EditEvent>::new());
    assert_eq!(editor.text, "0.0");

    for (key, horizontal) in [
        (MeterKey::Lower, true),
        (MeterKey::Raise, true),
        (MeterKey::Home, false),
        (MeterKey::End, false),
    ] {
        assert!(!editor.press_key(key, horizontal));
    }
    assert_eq!(editor.params.target_db(), TARGET_MAX_DB);
    assert_eq!(editor.events, Vec::<EditEvent>::new());
    assert_eq!(text_field_step(MeterKey::Raise, false, false), None);
}

#[test]
fn stepping_invalid_target_draft_uses_last_valid_parameter_and_formats_it() {
    let mut editor = Editor::new();
    set(&mut editor.params, PARAM_TARGET_DB, -6.5);
    editor.text = String::from("-");

    editor.step(TargetStepDirection::Up);

    assert_eq!(f(editor.params.target_db()), -5.5);
    assert_eq!(f(editor.controller.target_text_param()), -5.5);
    assert_eq!(editor.text, "-5.5");
}

#[test]
fn focused_target_entry_consumes_minimum_endpoint_without_a_gesture() {
    let mut editor = Editor::with_target(f(TARGET_MIN_DB));

    assert!(editor.press_key(MeterKey::Lower, false));
    assert_eq!(editor.params.target_db(), TARGET_MIN_DB);
    assert!(editor.events.is_empty());
}

#[test]
fn typed_target_edit_updates_the_meter_parameter_and_rejects_invalid_submit() {
    let mut editor = Editor::new();

    editor.type_text("-6.5", false);
    assert_eq!(f(editor.params.target_db()), -6.5);
    assert_eq!(editor.text, "-6.5");

    editor.type_text("not-a-number", false);
    assert_eq!(f(editor.params.target_db()), -6.5);

    editor.type_text("not-a-number", true);
    assert_eq!(editor.text, "-6.5");
    assert_eq!(f(editor.params.target_db()), -6.5);
}

#[test]
fn normalize_sets_zero_target_and_starts_matching() {
    let mut editor = Editor::new();

    editor.type_text("-6.5", true);
    editor.send(EditorMessage::Normalize);

    assert_eq!(f(editor.params.target_db()), 0.0);
    assert!(editor.params.match_requested());
    assert_eq!(editor.text, "0.0");
    assert_eq!(f(editor.controller.target_text_param()), 0.0);
}

#[test]
fn toggles_are_sent_as_one_gesture() {
    let mut editor = Editor::new();
    editor.send(EditorMessage::Toggle {
        id: PARAM_MATCH,
        checked: true,
    });
    assert!(editor.params.match_requested());
    assert_eq!(
        editor.events,
        vec![
            EditEvent::Begin(PARAM_MATCH),
            EditEvent::Value(PARAM_MATCH, 1.0_f32.to_bits()),
            EditEvent::End(PARAM_MATCH),
        ]
    );
}

#[test]
fn compact_surface_opens_at_its_preferred_size() {
    assert_eq!(preferred_window_size(), (208, 212));
    assert_eq!(viewport(0, 300), (1, 300));
    assert_eq!(viewport(208, 0), (208, 1));
    let major = (0..TARGET_METER_TICK_COUNT)
        .filter(|index| is_major_tick(*index))
        .count();
    assert_eq!(major, 7);
}

#[test]
fn status_indicator_keeps_each_match_state_visually_distinct() {
    for (state, expected_tone, label) in [
        (MatchState::Ready, Tone::Border, "Ready"),
        (MatchState::Measuring, Tone::Accent, "Measuring"),
        (MatchState::Locked, Tone::Highlight, "Locked"),
        (MatchState::NoSignal, Tone::Danger, "No signal"),
    ] {
        assert_eq!(status_tone(false, state), expected_tone);
        assert_eq!(status_tone(true, state), Tone::Pulse);
        assert_eq!(status_label(state), label);
    }
}

fn publish(status: &mut GuiStatus, input: f32, output: f32, gain: f32, progress: f32, state: MatchState) {
    status.update(
        input.to_bits(),
        output.to_bits(),
        gain.to_bits(),
        progress.to_bits(),
        state,
    );
}

/// A drawn editor: what was drawn last, and where its meter stands.
struct Drawn {
    snapshot: CompactSnapshot,
    meter_db: f32,
}

impl Drawn {
    fn new(params: &GainSnapParams, status: &GuiStatus) -> Self {
        Self {
            snapshot: CompactSnapshot::capture(params, status),
            meter_db: f(sanitize_meter_level_db(status.output_peak_db())),
        }
    }

    fn needs_redraw(&self, params: &GainSnapParams, status: &GuiStatus) -> bool {
        let level = f(sanitize_meter_level_db(status.output_peak_db()));
        needs_realtime_redraw(
            &self.snapshot,
            params,
            status,
            (self.meter_db - level).abs().to_bits(),
        )
    }

    fn draw(&mut self, params: &GainSnapParams, status: &GuiStatus) {
        let shown = CompactSnapshot::capture(params, status);
        if shown.refresh_due(&self.snapshot, false, false) {
            self.snapshot = shown;
        }
    }
}

#[test]
fn editor_repaints_when_measurement_locks() {
    let params = GainSnapParams::new();
    let mut status = GuiStatus::new();
    let mut editor = Drawn::new(&params, &status);

    publish(&mut status, -12.0, -12.0, 0.0, 0.5, MatchState::Measuring);
    assert!(editor.needs_redraw(&params, &status));
    editor.draw(&params, &status);
    editor.meter_db = -12.0;
    assert!(!editor.needs_redraw(&params, &status));

    publish(&mut status, -6.0, -3.0, 3.0, 1.0, MatchState::Locked);
    assert!(editor.needs_redraw(&params, &status));
    editor.draw(&params, &status);
    assert!(editor.needs_redraw(&params, &status));
    editor.meter_db = -3.0;
    assert!(!editor.needs_redraw(&params, &status));
}

#[test]
fn editor_repaints_when_only_output_level_moves() {
    let params = GainSnapParams::new();
    let mut status = GuiStatus::new();
    publish(&mut status, -24.0, -24.0, 0.0, 0.5, MatchState::Measuring);
    let editor = Drawn::new(&params, &status);
    assert!(!editor.needs_redraw(&params, &status));

    publish(&mut status, -24.0, -12.0, 0.0, 0.5, MatchState::Measuring);
    assert!(editor.needs_redraw(&params, &status));
    let moved = smoothed(editor.meter_db, -12.0, 5);
    assert!(level_fraction(moved) > level_fraction(editor.meter_db));
}

#[test]
fn editor_ignores_input_only_telemetry_for_meter_repaint() {
    let params = GainSnapParams::new();
    let mut status = GuiStatus::new();
    publish(&mut status, -12.0, -24.0, 0.0, 0.5, MatchState::Measuring);
    let editor = Drawn::new(&params, &status);
    assert!(!editor.needs_redraw(&params, &status));

    publish(&mut status, -3.0, -24.0, 0.0, 0.5, MatchState::Measuring);
    assert!(!editor.needs_redraw(&params, &status));
}

#[test]
fn editor_repaints_when_host_changes_target_parameter() {
    let mut params = GainSnapParams::new();
    let status = GuiStatus::new();
    let mut editor = Drawn::new(&params, &status);

    assert!(!editor.needs_redraw(&params, &status));
    set(&mut params, PARAM_TARGET_DB, -6.5);
    assert!(editor.needs_redraw(&params, &status));
    editor.draw(&params, &status);
    assert!(!editor.needs_redraw(&params, &status));
}

#[test]
fn editor_repaints_when_host_changes_match_parameter() {
    let mut params = GainSnapParams::new();
    let status = GuiStatus::new();
    let mut editor = Drawn::new(&params, &status);

    assert!(!editor.needs_redraw(&params, &status));
    set(&mut params, PARAM_MATCH, 1.0);
    assert!(editor.needs_redraw(&params, &status));
    editor.draw(&params, &status);
    assert!(editor.needs_redraw(&params, &status));

    set(&mut params, PARAM_MATCH, 0.0);
    assert!(editor.needs_redraw(&params, &status));
    editor.draw(&params, &status);
    assert!(!editor.needs_redraw(&params, &status));
}

#[test]
fn meter_ballistics_are_bounded_monotonic_and_attack_faster_than_release() {
    let attack = smoothed(-24.0, -6.0, 5);
    let release = smoothed(-6.0, -24.0, 5);

    assert!(attack > -24.0 && attack < -6.0);
    assert!(release < -6.0 && release > -24.0);
    assert!(attack + 24.0 > -6.0 - release);
    assert_eq!(smoothed(-24.0, -6.0, 10), -6.0);
    assert_eq!(smoothed(-6.0, -24.0, 1_000), smoothed(-6.0, -24.0, 100));
}

#[test]
fn meter_ballistics_sanitize_finite_clamped_levels_and_settle() {
    let max = f(TARGET_MAX_DB);
    let invalid_current = smoothed(f32::NAN, -6.0, 5);
    let invalid_target = smoothed(-6.0, f32::INFINITY, 5);
    assert!(invalid_current.is_finite());
    assert!((-120.0..=max).contains(&invalid_current));
    assert!(invalid_target.is_finite());
    assert!((-120.0..=max).contains(&invalid_target));
    assert_eq!(f(sanitize_meter_level_db(6.0_f32.to_bits())), max);
    assert_eq!(f(sanitize_meter_level_db((-200.0_f32).to_bits())), -120.0);
    assert_eq!(smoothed(-6.0, -30.0, 0), -6.0);

    let mut status = GuiStatus::new();
    publish(&mut status, -30.0, -30.0, 0.0, 0.0, MatchState::Measuring);
    let params = GainSnapParams::new();
    let mut controller = EditorController::new(&params, &status);
    let mut level = -6.0_f32;
    for _ in 0..100 {
        let next = smoothed(level, -30.0, 100);
        let moved = controller.advance_meter(
            next.to_bits(),
            controller.output_rms_db(),
            (next - level).abs().to_bits(),
            0,
        );
        assert_eq!(moved, (next - level).abs() > f32::EPSILON);
        level = next;
    }
    assert_eq!(f(controller.output_peak_db()), -30.0);
}

#[test]
fn matching_button_and_indicator_pulse_together_and_stop_when_off() {
    let mut params = GainSnapParams::new();
    set(&mut params, PARAM_MATCH, 1.0);
    let mut controller = EditorController::new(&params, &GuiStatus::new());
    let alpha_at = |milliseconds: f32| {
        let phase = milliseconds / 1_000.0 / 1.2 * std::f32::consts::TAU;
        (255.0 * (0.825 + 0.175 * phase.cos())).round() as u8
    };
    let mut alphas = Vec::new();
    for elapsed in [0.0, 600.0, 1_200.0] {
        controller.advance_pulse(params.match_requested(), alpha_at(elapsed));
        alphas.push(controller.pulse_alpha());
    }
    assert_ne!(alphas[0], alphas[1]);
    assert_eq!(alphas[0], alphas[2]);
    set(&mut params, PARAM_MATCH, 0.0);
    controller.advance_pulse(params.match_requested(), alpha_at(2_000.0));
    assert_eq!(controller.pulse_alpha(), 255);
    assert!(!controller.advance_pulse(params.match_requested(), alpha_at(3_000.0)));
}
