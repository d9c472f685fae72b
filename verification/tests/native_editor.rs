use gainsnap::editor::{
    activate_manual, gain_number_text, gain_text_changed, needs_realtime_redraw, parse_gain_text, parse_target_text,
    restart_matching, set_manual_gain_db, set_visible, should_pulse, shown_gain, step_target_db,
    take_gain, target_number_text, target_step, DisplaySnapshot, EditEvent, EditorController,
    TargetStepDirection,
};
use gainsnap::gui_gpui::{
    activity_label_color, activity_label_text, activity_stage, button_colors, focus_border,
    gain_marker_part, handle_key_down, key_named, marker_colors, marker_level_part, match_fill,
    mode_label, normalize, preferred_window_size, screenshot_fixture, segment_color,
    segment_is_lit, shown_label, solid, toggle_match, toggle_mode, with_alpha, ButtonColors,
    DragAction, Drags, Focus, GainScale, Key, KeyAction, Modifiers, ACCENT, ACCENT_DANGER,
    ACTIVITY_SEGMENT_COUNT, BG_PRIMARY, BORDER, BORDER_EMPHASIS, FINE_MARKER_STEP_DB, GAIN_MARKER_HIGH_DB,
    GAIN_MARKER_HIGH_LEVEL_DB, GAIN_MARKER_NEUTRAL_DB, KNOB_STEP_DB, MARKER_STEP_DB, TEXT_MUTED,
    TEXT_PRIMARY,
};
use gainsnap::params::{
    GainSnapParams, GAIN_MAX_DB, GAIN_MIN_DB, PARAM_LOCKED_GAIN_DB, PARAM_MATCH, PARAM_RMS_MODE,
    PARAM_TARGET_DB, TARGET_MAX_DB, TARGET_MIN_DB,
};
use gainsnap::status::{GuiStatus, MatchActivity, MatchState};

fn f(bits: u32) -> f32 {
    f32::from_bits(bits)
}

fn set(params: &mut GainSnapParams, id: u32, value: f32) {
    params.set_param(id, value.to_bits());
}

fn target_of(text: &str) -> Option<f32> {
    let number = target_number_text(text)
        .parse::<f32>()
        .ok()
        .map(f32::to_bits);
    parse_target_text(number).map(f)
}

fn gain_of(text: &str) -> Option<f32> {
    let number = gain_number_text(text)
        .parse::<f32>()
        .ok()
        .map(f32::to_bits);
    parse_gain_text(number).map(f)
}

fn stepped(target_db: f32, direction: TargetStepDirection, shift_held: bool) -> f32 {
    f(step_target_db(
        (target_db + f(direction.sign()) * f(target_step(shift_held))).to_bits(),
    ))
}

#[test]
fn target_text_parser_accepts_units_and_clamps() {
    assert_eq!(target_of("-12.0"), Some(-12.0));
    assert_eq!(target_of("-12 dBFS"), Some(-12.0));
    assert_eq!(target_of("-12 dB"), Some(-12.0));
    assert_eq!(target_of("8"), Some(0.0));
    assert_eq!(target_of("-80"), Some(-36.0));
    assert_eq!(target_of("--"), None);
    assert_eq!(target_of("-12 dB dB"), None);
    assert_eq!(target_of("inf"), None);
}

#[test]
fn gain_text_parser_accepts_one_unit_and_clamps() {
    assert_eq!(gain_of(" +3.5 dB "), Some(3.5));
    assert_eq!(gain_of("3.5"), Some(3.5));
    assert_eq!(gain_of("500"), Some(120.0));
    assert_eq!(gain_of("-500dB"), Some(-36.0));
    assert_eq!(gain_of("3 dBFS"), None);
    assert_eq!(gain_of("nan"), None);
}

#[test]
fn target_steps_use_one_db_and_shift_tenth_db() {
    let (min, max) = (f(TARGET_MIN_DB), f(TARGET_MAX_DB));
    assert_eq!(stepped(-12.0, TargetStepDirection::Up, false), -11.0);
    assert_eq!(stepped(-12.0, TargetStepDirection::Down, false), -13.0);
    assert_eq!(stepped(-12.0, TargetStepDirection::Up, true), -11.9);
    assert_eq!(stepped(max, TargetStepDirection::Up, false), max);
    assert_eq!(stepped(min, TargetStepDirection::Down, false), min);
}

#[test]
fn controller_visibility_disables_active_matching() {
    let mut params = GainSnapParams::new();
    set(&mut params, PARAM_MATCH, 1.0);
    set(&mut params, PARAM_LOCKED_GAIN_DB, -7.5);
    let mut events = Vec::new();

    set_visible(&mut params, &mut events, true);
    assert!(params.match_requested() && events.is_empty());

    set_visible(&mut params, &mut events, false);

    assert!(!params.match_requested());
    assert_eq!(f(params.locked_gain_db()), -7.5);
    assert_eq!(events.len(), 3);
    set_visible(&mut params, &mut events, false);
    assert_eq!(events.len(), 3);
}

#[test]
fn normalize_forces_peak_zero_db_and_matching() {
    let mut params = GainSnapParams::new();
    set(&mut params, PARAM_RMS_MODE, 1.0);
    let mut controller = EditorController::new(&params, &GuiStatus::new());
    let mut events = Vec::new();

    normalize(&mut controller, &mut params, &mut events);

    assert_eq!(format!("{:.1}", f(controller.target_text_param())), "0.0");
    assert!(!params.rms_mode());
    assert_eq!(params.target_db(), TARGET_MAX_DB);
    assert!(params.match_requested());
    assert_eq!(params.restart_generation(), 1);
    assert_eq!(
        events,
        vec![
            EditEvent::Begin(PARAM_RMS_MODE),
            EditEvent::Value(PARAM_RMS_MODE, 0),
            EditEvent::End(PARAM_RMS_MODE),
            EditEvent::Begin(PARAM_TARGET_DB),
            EditEvent::Value(PARAM_TARGET_DB, 0),
            EditEvent::End(PARAM_TARGET_DB),
            EditEvent::Begin(PARAM_MATCH),
            EditEvent::Value(PARAM_MATCH, 1.0_f32.to_bits()),
            EditEvent::End(PARAM_MATCH),
        ]
    );
}

#[test]
fn restart_control_requests_a_new_session_only_while_matching() {
    let mut params = GainSnapParams::new();

    restart_matching(&mut params);
    assert_eq!(params.restart_generation(), 0);

    set(&mut params, PARAM_MATCH, 1.0);
    restart_matching(&mut params);
    assert_eq!(params.restart_generation(), 1);
}

fn gain_marker_level(gain_db: f32) -> f32 {
    let (neutral, high, high_level) = (
        f(GAIN_MARKER_NEUTRAL_DB),
        f(GAIN_MARKER_HIGH_DB),
        f(GAIN_MARKER_HIGH_LEVEL_DB),
    );
    let (gain, part) = gain_marker_part(gain_db.to_bits());
    let gain = f(gain);
    match part {
        GainScale::High => {
            high_level + (gain - high) * (f(TARGET_MAX_DB) - high_level) / (f(GAIN_MAX_DB) - high)
        }
        GainScale::Middle => neutral + gain * (high_level - neutral) / high,
        GainScale::Below => neutral + gain * (neutral - f(TARGET_MIN_DB)) / -f(GAIN_MIN_DB),
    }
}

fn gain_of_marker(level_db: f32) -> f32 {
    let (neutral, high, high_level) = (
        f(GAIN_MARKER_NEUTRAL_DB),
        f(GAIN_MARKER_HIGH_DB),
        f(GAIN_MARKER_HIGH_LEVEL_DB),
    );
    let (level, part) = marker_level_part(level_db.to_bits());
    let level = f(level);
    match part {
        GainScale::High => {
            high + (level - high_level) * (f(GAIN_MAX_DB) - high) / (f(TARGET_MAX_DB) - high_level)
        }
        GainScale::Middle => (level - neutral) * high / (high_level - neutral),
        GainScale::Below => (level - neutral) * -f(GAIN_MIN_DB) / (neutral - f(TARGET_MIN_DB)),
    }
}

#[test]
fn gain_marker_starts_at_minus_twelve_and_covers_manual_range() {
    for (gain_db, marker_db) in [
        (f(GAIN_MIN_DB), f(TARGET_MIN_DB)),
        (-18.0, -24.0),
        (0.0, f(GAIN_MARKER_NEUTRAL_DB)),
        (18.0, -7.5),
        (f(GAIN_MARKER_HIGH_DB), f(GAIN_MARKER_HIGH_LEVEL_DB)),
        (f(GAIN_MAX_DB), f(TARGET_MAX_DB)),
    ] {
        assert!((gain_marker_level(gain_db) - marker_db).abs() < 0.001);
        assert!((gain_of_marker(marker_db) - gain_db).abs() < 0.001);
    }
}

const NO_MODIFIERS: Modifiers = Modifiers {
    shift: false,
    control: false,
    alt: false,
    platform: false,
    function: false,
    any: false,
};

const NO_FOCUS: Focus = Focus {
    button: false,
    meter: false,
    knob: false,
    gain_marker: false,
};

#[test]
fn keys_act_on_the_focused_control() {
    let meter = Focus {
        meter: true,
        ..NO_FOCUS
    };
    let knob = Focus {
        knob: true,
        ..NO_FOCUS
    };
    let marker = Focus {
        gain_marker: true,
        ..meter
    };
    let shift = Modifiers {
        shift: true,
        any: true,
        ..NO_MODIFIERS
    };
    let (up, down) = (TargetStepDirection::Up, TargetStepDirection::Down);
    for (focus, key, modifiers, action) in [
        (NO_FOCUS, "up", NO_MODIFIERS, KeyAction::Pass),
        (
            meter,
            "up",
            NO_MODIFIERS,
            KeyAction::StepTarget {
                direction: up,
                fine: false,
            },
        ),
        (
            meter,
            "left",
            shift,
            KeyAction::StepTarget {
                direction: down,
                fine: true,
            },
        ),
        (
            knob,
            "right",
            NO_MODIFIERS,
            KeyAction::StepGain {
                direction: up,
                step: KNOB_STEP_DB,
            },
        ),
        (
            knob,
            "down",
            shift,
            KeyAction::StepGain {
                direction: down,
                step: MARKER_STEP_DB,
            },
        ),
        (
            marker,
            "up",
            NO_MODIFIERS,
            KeyAction::StepGain {
                direction: up,
                step: MARKER_STEP_DB,
            },
        ),
        (
            marker,
            "up",
            shift,
            KeyAction::StepGain {
                direction: up,
                step: FINE_MARKER_STEP_DB,
            },
        ),
        (
            meter,
            "home",
            NO_MODIFIERS,
            KeyAction::SetTarget(TARGET_MIN_DB),
        ),
        (
            meter,
            "end",
            NO_MODIFIERS,
            KeyAction::SetTarget(TARGET_MAX_DB),
        ),
        (marker, "home", NO_MODIFIERS, KeyAction::Pass),
        (knob, "end", NO_MODIFIERS, KeyAction::Pass),
        (meter, "space", NO_MODIFIERS, KeyAction::Pass),
        (meter, "x", NO_MODIFIERS, KeyAction::Pass),
    ] {
        assert_eq!(handle_key_down(focus, key_named(key), modifiers), action);
    }
    let function = Modifiers {
        function: true,
        any: true,
        ..NO_MODIFIERS
    };
    assert_eq!(
        handle_key_down(meter, Key::Up, function),
        KeyAction::StepTarget {
            direction: up,
            fine: false
        }
    );
    assert_eq!(
        handle_key_down(meter, Key::Home, function),
        KeyAction::Pass
    );
    for modifiers in [
        Modifiers {
            control: true,
            ..NO_MODIFIERS
        },
        Modifiers {
            alt: true,
            ..NO_MODIFIERS
        },
        Modifiers {
            platform: true,
            ..NO_MODIFIERS
        },
    ] {
        assert_eq!(handle_key_down(meter, Key::Up, modifiers), KeyAction::Pass);
    }
}

#[test]
fn focused_buttons_consume_only_clean_activation_keys() {
    let button = Focus {
        button: true,
        meter: true,
        ..NO_FOCUS
    };
    assert_eq!(
        handle_key_down(button, key_named("space"), NO_MODIFIERS),
        KeyAction::Consume
    );
    assert_eq!(
        handle_key_down(button, key_named("enter"), NO_MODIFIERS),
        KeyAction::Consume
    );
    let any = Modifiers {
        any: true,
        ..NO_MODIFIERS
    };
    assert_eq!(handle_key_down(button, Key::Space, any), KeyAction::Pass);
    assert_eq!(
        handle_key_down(button, Key::Up, NO_MODIFIERS),
        KeyAction::Pass
    );
}

#[test]
fn drags_follow_what_was_pressed_until_release() {
    let mut drags = Drags::new();
    assert_eq!(drags.meter_mouse_move(true), DragAction::Nothing);
    assert_eq!(drags.meter_mouse_down(None), DragAction::Nothing);
    assert_eq!(drags.meter_mouse_down(Some(true)), DragAction::Gain);
    assert!(drags.gain_marker_selected);
    assert_eq!(drags.meter_mouse_move(true), DragAction::Gain);
    assert_eq!(drags.meter_mouse_move(false), DragAction::Nothing);
    drags.meter_mouse_up();
    assert_eq!(drags.meter_mouse_move(true), DragAction::Nothing);
    assert!(drags.gain_marker_selected);
    assert_eq!(drags.meter_mouse_down(Some(false)), DragAction::Target);
    assert!(!drags.gain_marker_selected);
    assert_eq!(drags.meter_mouse_move(true), DragAction::Target);

    assert_eq!(drags.knob_mouse_move(true), DragAction::Nothing);
    assert_eq!(drags.knob_mouse_down(1), DragAction::Gain);
    assert_eq!(drags.knob_mouse_move(true), DragAction::Gain);
    assert_eq!(drags.knob_mouse_move(false), DragAction::Nothing);
    assert_eq!(drags.knob_mouse_down(2), DragAction::EditGain);
    assert_eq!(drags.knob_mouse_move(true), DragAction::Nothing);
    drags.knob_mouse_down(1);
    drags.knob_mouse_up();
    assert_eq!(drags.knob_mouse_move(true), DragAction::Nothing);
}

#[test]
fn manual_gain_switches_match_off_and_is_bounded() {
    let mut params = GainSnapParams::new();
    set(&mut params, PARAM_MATCH, 1.0);
    let mut events = Vec::new();
    activate_manual(&mut params, &mut events);
    assert!(!params.match_requested());
    assert_eq!(events.len(), 3);
    activate_manual(&mut params, &mut events);
    assert_eq!(events.len(), 3);
    set_manual_gain_db(&mut params, &mut events, 500.0_f32.to_bits());
    assert_eq!(f(shown_gain(&params)), 120.0);
    assert_eq!(
        events[4],
        EditEvent::Value(PARAM_LOCKED_GAIN_DB, 120.0_f32.to_bits())
    );
}

#[test]
fn toggles_flip_their_flags() {
    let mut params = GainSnapParams::new();
    let mut events = Vec::new();
    toggle_mode(&mut params, &mut events);
    toggle_match(&mut params, &mut events);
    assert!(params.rms_mode() && params.match_requested());
    toggle_mode(&mut params, &mut events);
    toggle_match(&mut params, &mut events);
    assert!(!params.rms_mode() && !params.match_requested());
    assert_eq!(events.len(), 12);
}

#[test]
fn activity_is_shown_on_a_rail_of_three_stages() {
    for (activity, stage, label, color) in [
        (MatchActivity::Ready, None, "Ready", TEXT_MUTED),
        (MatchActivity::NoSignal, None, "No signal", ACCENT_DANGER),
        (MatchActivity::Held, None, "Held", TEXT_MUTED),
        (MatchActivity::Listening, Some(0), "Listening", TEXT_PRIMARY),
        (MatchActivity::Adjusting, Some(1), "Adjusting", TEXT_PRIMARY),
        (MatchActivity::Matched, Some(2), "Matched", TEXT_PRIMARY),
    ] {
        assert_eq!(activity_stage(activity), stage);
        assert_eq!(activity_label_text(activity), label);
        assert_eq!(shown_label(true, activity), label);
        assert_eq!(shown_label(false, activity), "Manual");
        assert_eq!(activity_label_color(activity), color);
        for index in 0..ACTIVITY_SEGMENT_COUNT {
            assert_eq!(segment_is_lit(activity, index), stage == Some(index));
        }
    }
    assert_eq!(mode_label(true), "RMS");
    assert_eq!(mode_label(false), "PEAK");
}

#[test]
fn buttons_and_markers_carry_the_accent_when_active() {
    assert_eq!(
        button_colors(true, true, true),
        ButtonColors {
            background: ACCENT,
            foreground: TEXT_PRIMARY,
            border: ACCENT
        }
    );
    assert_eq!(
        button_colors(true, false, true),
        ButtonColors {
            background: BG_PRIMARY,
            foreground: ACCENT,
            border: BORDER
        }
    );
    assert_eq!(
        button_colors(false, false, true),
        ButtonColors {
            background: BG_PRIMARY,
            foreground: TEXT_MUTED,
            border: BORDER
        }
    );
    assert_eq!(
        button_colors(true, true, false),
        ButtonColors {
            background: ACCENT,
            foreground: TEXT_MUTED,
            border: BORDER
        }
    );
    assert_eq!(marker_colors(true, false), (ACCENT, TEXT_PRIMARY));
    assert_eq!(marker_colors(true, true), (TEXT_PRIMARY, ACCENT));
    assert_eq!(marker_colors(false, true), (TEXT_PRIMARY, TEXT_PRIMARY));
}

#[test]
fn controls_pulse_while_a_match_is_unsettled() {
    let mut params = GainSnapParams::new();
    let mut status = GuiStatus::new();
    let publish = |status: &mut GuiStatus, activity| {
        status.update_with_activity(0, 0, 0, 0, MatchState::Measuring, activity);
    };
    publish(&mut status, MatchActivity::Adjusting);
    assert!(!should_pulse(&params, &status));
    set(&mut params, PARAM_MATCH, 1.0);
    assert!(should_pulse(&params, &status));
    publish(&mut status, MatchActivity::Listening);
    assert!(should_pulse(&params, &status));
    publish(&mut status, MatchActivity::Matched);
    assert!(!should_pulse(&params, &status));
}

#[test]
fn a_redraw_is_due_when_something_shown_changes() {
    let mut params = GainSnapParams::new();
    let mut status = GuiStatus::new();
    let drawn = DisplaySnapshot::capture(&params, &status);
    assert!(!needs_realtime_redraw(&drawn, &params, &status, 0, 0));
    assert!(needs_realtime_redraw(
        &drawn,
        &params,
        &status,
        0.02_f32.to_bits(),
        0
    ));
    assert!(needs_realtime_redraw(
        &drawn,
        &params,
        &status,
        0,
        0.02_f32.to_bits()
    ));
    status.update_rms((-6.0_f32).to_bits());
    assert!(needs_realtime_redraw(&drawn, &params, &status, 0, 0));
    let drawn = DisplaySnapshot::capture(&params, &status);
    set(&mut params, PARAM_LOCKED_GAIN_DB, 3.0);
    assert!(!drawn.same(&DisplaySnapshot::capture(&params, &status)));
}

#[test]
fn target_text_follows_a_target_that_was_set_elsewhere() {
    let params = GainSnapParams::new();
    let mut controller = EditorController::new(&params, &GuiStatus::new());
    let target = (-6.0_f32).to_bits();
    assert!(!controller.sync_target_text(target, 0.00005_f32.to_bits()));
    assert_eq!(f(controller.target_text_param()), -12.0);
    assert!(controller.sync_target_text(target, 6.0_f32.to_bits()));
    assert_eq!(f(controller.target_text_param()), -6.0);
}

#[test]
fn entered_targets_are_stored_and_rewritten_on_submit() {
    let mut params = GainSnapParams::new();
    let mut controller = EditorController::new(&params, &GuiStatus::new());
    let mut events = Vec::new();
    let outcome = controller.target_text_changed(
        &mut params,
        &mut events,
        Some((-6.5_f32).to_bits()),
        false,
    );
    assert!(outcome.accepted && !outcome.rewrite);
    assert_eq!(f(params.target_db()), -6.5);
    let outcome = controller.target_text_changed(&mut params, &mut events, None, true);
    assert!(!outcome.accepted && outcome.rewrite);
    assert_eq!(f(params.target_db()), -6.5);
    assert_eq!(events.len(), 3);
}

#[test]
fn gpui_screenshot_screenshot_renders_initial_ui() {
    // Capturing needs a native window; the picture's size is that of the editor.
    assert_eq!(preferred_window_size(), (250, 424));
}

#[test]
fn gain_set_by_hand_ends_the_match_and_tells_the_host_both() {
    let mut params = GainSnapParams::new();
    set(&mut params, PARAM_MATCH, 1.0);
    let mut events = Vec::new();
    take_gain(&mut params, &mut events, (-3.0_f32).to_bits());
    assert!(!params.match_requested());
    assert_eq!(f(params.locked_gain_db()), -3.0);
    assert_eq!(events.len(), 6);
    assert_eq!(events[1], EditEvent::Value(PARAM_MATCH, 0));

    events.clear();
    let outcome = gain_text_changed(&mut params, &mut events, Some(500.0_f32.to_bits()), true);
    assert!(outcome.accepted && outcome.rewrite);
    assert_eq!(f(params.locked_gain_db()), 120.0);
    assert_eq!(events.len(), 3);

    events.clear();
    let outcome = gain_text_changed(&mut params, &mut events, None, false);
    assert!(!outcome.accepted && !outcome.rewrite);
    assert!(events.is_empty());
}

#[test]
fn colors_carry_their_opacity_in_the_last_byte() {
    assert_eq!(solid(ACCENT), 0xe958_43ff);
    assert_eq!(with_alpha(TEXT_MUTED, 190), 0x999b_9abe);
    assert_eq!(
        segment_color(MatchActivity::Adjusting, 1, 0x80),
        with_alpha(ACCENT, 0x80)
    );
    assert_eq!(
        segment_color(MatchActivity::Adjusting, 2, 0x80),
        solid(BORDER_EMPHASIS)
    );
    assert_eq!(match_fill(true, 200), with_alpha(ACCENT, 200));
    assert_eq!(match_fill(false, 200), solid(BG_PRIMARY));
    assert_eq!(focus_border(true, BORDER), solid(ACCENT));
    assert_eq!(focus_border(false, BORDER), solid(BORDER));
}

#[test]
fn pictures_show_an_untouched_or_a_matching_editor() {
    let (params, status) = screenshot_fixture(false, false);
    assert_eq!(params.values(), GainSnapParams::new().values());
    assert_eq!(status.state(), MatchState::Ready);
    assert_eq!(f(status.output_peak_db()), -120.0);

    let (params, status) = screenshot_fixture(true, true);
    assert!(params.match_requested() && params.rms_mode());
    assert_eq!(status.state(), MatchState::Measuring);
    assert_eq!(status.activity(), MatchActivity::Listening);
    assert_eq!(f(status.output_peak_db()), -12.0);
    assert_eq!(f(status.output_rms_db()), -12.0);
}

#[test]
fn stores_are_rebuilt_from_their_values() {
    let mut params = GainSnapParams::new();
    set(&mut params, PARAM_TARGET_DB, -6.0);
    set(&mut params, PARAM_MATCH, 1.0);
    params.request_restart();
    let rebuilt = GainSnapParams::of_values(params.values());
    assert_eq!(rebuilt.values(), params.values());
    assert_eq!(rebuilt.restart_generation(), 1);
    let mut values = params.values();
    values.target_db = f32::NAN.to_bits();
    values.locked_gain_db = 500.0_f32.to_bits();
    let bounded = GainSnapParams::of_values(values);
    assert_eq!(f(bounded.target_db()), -12.0);
    assert_eq!(f(bounded.locked_gain_db()), 120.0);
}
