use gainsnap::params::{
    GainSnapParams, DEFAULT_TARGET_DB, GAIN_MAX_DB, GAIN_MIN_DB, PARAM_LOCKED_GAIN_DB,
    PARAM_MANUAL_GAIN_DB, PARAM_MANUAL_MODE, PARAM_MATCH, PARAM_RMS_MODE, PARAM_TARGET_DB,
    TARGET_MAX_DB, TARGET_MIN_DB,
};
use gainsnap::state::{
    accepted_state_versions, apply_snapshot, decode_clap_state_payload, decode_payload,
    decode_vst3_state_payload, encode_payload, StateError, LEGACY_STATE_VERSION, STATE_MAGIC,
    STATE_PAYLOAD_BYTES, STATE_VERSION,
};

fn f(bits: u32) -> f32 {
    f32::from_bits(bits)
}

fn set(params: &mut GainSnapParams, id: u32, value: f32) {
    params.set_param(id, value.to_bits());
}

#[test]
fn rms_mode_round_trips_and_older_projects_keep_their_mode() {
    let mut params = GainSnapParams::new();
    set(&mut params, PARAM_MATCH, 1.0);
    let old = encode_payload(&params);
    set(&mut params, PARAM_RMS_MODE, 1.0);
    let saved = encode_payload(&params);
    let snapshot = decode_payload(STATE_VERSION, &saved).unwrap();
    assert!(snapshot.rms_mode);
    let mut restored = GainSnapParams::new();
    apply_snapshot(&mut restored, snapshot);
    assert!(restored.rms_mode() && restored.match_requested());
    let mut v3 = saved;
    v3[6] = 0;
    let old_rms = decode_payload(3, &v3[..12]).expect("valid version 3 state");
    assert!(old_rms.rms_mode);
    assert!(!old_rms.has_match_result);
    assert!(decode_payload(2, &saved).is_none());
    apply_snapshot(&mut restored, decode_payload(2, &old[..12]).unwrap());
    assert!(!restored.rms_mode() && restored.match_requested());
}

#[test]
fn state_round_trips_and_rejects_malformed_payloads() {
    let mut params = GainSnapParams::new();
    set(&mut params, PARAM_TARGET_DB, -7.5);
    set(&mut params, PARAM_MATCH, 1.0);
    set(&mut params, PARAM_LOCKED_GAIN_DB, 5.25);
    let payload = encode_payload(&params);
    let decoded = decode_payload(STATE_VERSION, &payload).expect("valid state");
    assert_eq!(f(decoded.target_db), -7.5);
    assert!(decoded.match_requested);
    assert_eq!(f(decoded.locked_gain_db), 5.25);

    assert!(decode_payload(STATE_VERSION, &payload[..11]).is_none());
    let mut invalid = payload;
    invalid[4] = 2;
    assert!(decode_payload(STATE_VERSION, &invalid).is_none());
    invalid = payload;
    invalid[5] = 2;
    assert!(decode_payload(STATE_VERSION, &invalid).is_none());
    invalid = payload;
    invalid[6] = 2;
    assert!(decode_payload(STATE_VERSION, &invalid).is_none());
    invalid = payload;
    invalid[7] = 2;
    assert!(decode_payload(STATE_VERSION, &invalid).is_none());
}

#[test]
fn legacy_state_migrates_match_now_to_off() {
    let mut params = GainSnapParams::new();
    set(&mut params, PARAM_TARGET_DB, -7.5);
    set(&mut params, PARAM_MATCH, 1.0);
    set(&mut params, PARAM_LOCKED_GAIN_DB, 5.25);
    let payload = encode_payload(&params);
    let decoded = decode_payload(LEGACY_STATE_VERSION, &payload[..12]).expect("legacy state");

    assert_eq!(f(decoded.target_db), -7.5);
    assert!(!decoded.match_requested);
    assert_eq!(f(decoded.locked_gain_db), 5.25);
}

#[test]
fn high_peak_gain_round_trips_without_changing_state_format() {
    let mut params = GainSnapParams::new();
    set(&mut params, PARAM_LOCKED_GAIN_DB, 32.0);
    let payload = encode_payload(&params);

    let decoded = decode_payload(STATE_VERSION, &payload).expect("valid high-gain state");
    assert_eq!(f(decoded.locked_gain_db), 32.0);

    let mut restored = GainSnapParams::new();
    apply_snapshot(&mut restored, decoded);
    assert_eq!(f(restored.locked_gain_db()), 32.0);
}

#[test]
fn completed_match_flag_round_trips_but_legacy_state_does_not_arm_it() {
    let mut params = GainSnapParams::new();
    params.set_has_match_result(true);
    let payload = encode_payload(&params);
    let decoded = decode_payload(STATE_VERSION, &payload).expect("valid version 5 state");
    assert!(decoded.has_match_result);

    let mut restored = GainSnapParams::new();
    apply_snapshot(&mut restored, decoded);
    assert!(restored.has_match_result());

    let mut previous = payload;
    previous[6] = 0;
    for version in [1, 2, 3] {
        let older = decode_payload(version, &previous[..12]).expect("valid older state");
        assert!(!older.has_match_result);
        apply_snapshot(&mut restored, older);
        assert!(!restored.has_match_result());
    }
}

#[test]
fn manual_state_round_trips_and_v4_defaults_to_auto() {
    let mut params = GainSnapParams::new();
    set(&mut params, PARAM_LOCKED_GAIN_DB, -9.0);
    set(&mut params, PARAM_MANUAL_GAIN_DB, 7.25);
    set(&mut params, PARAM_MANUAL_MODE, 1.0);
    params.set_has_match_result(true);
    let payload = encode_payload(&params);
    let mut restored = GainSnapParams::new();
    apply_snapshot(
        &mut restored,
        decode_payload(STATE_VERSION, &payload).unwrap(),
    );
    assert!(restored.manual_mode());
    assert_eq!(f(restored.manual_gain_db()), 7.25);
    assert!(restored.has_match_result());

    let mut v4 = payload;
    v4[7] = 0;
    apply_snapshot(&mut restored, decode_payload(4, &v4[..12]).unwrap());
    assert!(!restored.manual_mode());
    assert_eq!(f(restored.manual_gain_db()), 0.0);
    assert_eq!(f(restored.locked_gain_db()), -9.0);
    assert!(restored.has_match_result());
}

#[test]
fn clap_v1_state_migrates_match_now_to_off_and_preserves_gain() {
    let mut params = GainSnapParams::new();
    set(&mut params, PARAM_TARGET_DB, -7.5);
    set(&mut params, PARAM_MATCH, 1.0);
    set(&mut params, PARAM_LOCKED_GAIN_DB, 5.25);
    let payload = encode_payload(&params);

    assert!(accepted_state_versions().contains(&LEGACY_STATE_VERSION));
    let snapshot = decode_clap_state_payload(LEGACY_STATE_VERSION, &payload)
        .expect("legacy CLAP state should migrate");
    apply_snapshot(&mut params, snapshot);

    assert_eq!(f(params.target_db()), -7.5);
    assert!(!params.match_requested());
    assert_eq!(f(params.locked_gain_db()), 5.25);
}

#[test]
fn payload_bytes_are_little_endian() {
    assert_eq!(STATE_MAGIC, u32::from_le_bytes(*b"GNSP"));
    let mut params = GainSnapParams::new();
    set(&mut params, PARAM_TARGET_DB, -7.5);
    set(&mut params, PARAM_MATCH, 1.0);
    set(&mut params, PARAM_RMS_MODE, 1.0);
    set(&mut params, PARAM_LOCKED_GAIN_DB, 5.25);
    set(&mut params, PARAM_MANUAL_GAIN_DB, -1.125);
    params.set_has_match_result(true);
    let mut expected = Vec::new();
    expected.extend_from_slice(&(-7.5_f32).to_le_bytes());
    expected.extend_from_slice(&[1, 1, 1, 0]);
    expected.extend_from_slice(&5.25_f32.to_le_bytes());
    expected.extend_from_slice(&(-1.125_f32).to_le_bytes());
    assert_eq!(encode_payload(&params).to_vec(), expected);
    assert_eq!(expected.len(), STATE_PAYLOAD_BYTES);
}

#[test]
fn unknown_versions_and_wrong_lengths_are_refused() {
    let payload = encode_payload(&GainSnapParams::new());
    for version in [0, 6, u32::MAX] {
        assert_eq!(decode_payload(version, &payload), None);
        assert_eq!(decode_payload(version, &payload[..12]), None);
    }
    for version in [1, 2, 3, 4] {
        assert!(decode_payload(version, &payload[..12]).is_some());
        assert_eq!(
            decode_payload(version, &payload),
            decode_payload(version, &payload[..12])
        );
        for length in [0, 11, 13, 15] {
            assert_eq!(decode_payload(version, &payload[..length]), None);
        }
    }
    assert_eq!(decode_payload(STATE_VERSION, &payload[..12]), None);
    assert_eq!(decode_payload(STATE_VERSION, &[]), None);
}

#[test]
fn numbers_that_are_not_finite_are_refused() {
    let payload = encode_payload(&GainSnapParams::new());
    for at in [0, 8, 12] {
        for value in [f32::NAN, f32::INFINITY, f32::NEG_INFINITY] {
            let mut invalid = payload;
            invalid[at..at + 4].copy_from_slice(&value.to_le_bytes());
            assert_eq!(decode_payload(STATE_VERSION, &invalid), None);
            assert_eq!(
                decode_clap_state_payload(STATE_VERSION, &invalid),
                Err(StateError::InvalidPayload)
            );
        }
    }
    assert_eq!(
        StateError::InvalidPayload.message(),
        "Invalid GainSnap state payload"
    );
}

#[test]
fn restored_levels_are_brought_into_range() {
    let mut payload = encode_payload(&GainSnapParams::new());
    payload[0..4].copy_from_slice(&12.0_f32.to_le_bytes());
    payload[8..12].copy_from_slice(&500.0_f32.to_le_bytes());
    payload[12..16].copy_from_slice(&(-500.0_f32).to_le_bytes());
    let snapshot = decode_payload(STATE_VERSION, &payload).expect("finite numbers decode");
    assert_eq!(f(snapshot.target_db), 12.0);
    let mut params = GainSnapParams::new();
    apply_snapshot(&mut params, snapshot);
    assert_eq!(params.target_db(), TARGET_MAX_DB);
    assert_eq!(params.locked_gain_db(), GAIN_MAX_DB);
    assert_eq!(params.manual_gain_db(), GAIN_MIN_DB);
    assert_eq!(f(TARGET_MIN_DB), -36.0);
    assert_eq!(f(TARGET_MAX_DB), 0.0);
    assert_eq!(f(DEFAULT_TARGET_DB), -12.0);
    assert_eq!(f(GAIN_MIN_DB), -36.0);
    assert_eq!(f(GAIN_MAX_DB), 120.0);
}

#[test]
fn vst3_projects_accept_only_the_current_version() {
    let payload = encode_payload(&GainSnapParams::new());
    assert!(decode_vst3_state_payload(STATE_VERSION, &payload).is_some());
    assert_eq!(decode_vst3_state_payload(4, &payload[..12]), None);
    assert_eq!(decode_vst3_state_payload(4, &payload), None);
    assert_eq!(decode_vst3_state_payload(STATE_VERSION, &payload[..15]), None);
    assert_eq!(accepted_state_versions(), [5, 4, 3, 2, 1]);
}

#[test]
fn a_saved_state_reopens_unchanged_and_keeps_the_restart_count() {
    let mut params = GainSnapParams::new();
    set(&mut params, PARAM_TARGET_DB, -0.3);
    set(&mut params, PARAM_MATCH, 1.0);
    set(&mut params, PARAM_RMS_MODE, 1.0);
    set(&mut params, PARAM_LOCKED_GAIN_DB, 119.5);
    set(&mut params, PARAM_MANUAL_GAIN_DB, -23.5);
    set(&mut params, PARAM_MANUAL_MODE, 1.0);
    params.set_has_match_result(true);
    let payload = encode_payload(&params);
    let mut other = GainSnapParams::new();
    other.request_restart();
    apply_snapshot(&mut other, decode_payload(STATE_VERSION, &payload).unwrap());
    for id in 1..=6 {
        assert_eq!(other.get_param(id), params.get_param(id));
    }
    assert!(other.has_match_result());
    assert_eq!(other.restart_generation(), 1);
}
