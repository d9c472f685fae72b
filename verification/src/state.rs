//! Project state: a fixed little-endian payload, versioned by its envelope.
//!
//! | bytes  | content                                   | since version |
//! |--------|-------------------------------------------|---------------|
//! | 0..4   | target level                              | 1             |
//! | 4      | Match flag                                | 1             |
//! | 5      | RMS flag                                  | 3             |
//! | 6      | completed-match flag                      | 4             |
//! | 7      | manual-mode flag                          | 5             |
//! | 8..12  | locked gain                               | 1             |
//! | 12..16 | manual gain                               | 5             |
use vstd::prelude::*;

use crate::params::{
    Controls, GainSnapParams, PARAM_LOCKED_GAIN_DB, PARAM_MANUAL_GAIN_DB, PARAM_MANUAL_MODE,
    PARAM_MATCH, PARAM_RMS_MODE, PARAM_TARGET_DB,
};
use crate::single;

verus! {

/// State marker: the bytes `GNSP`, read as a little-endian word.
pub const STATE_MAGIC: u32 = 0x5053_4e47;

/// Envelope version that is written.
pub const STATE_VERSION: u32 = 5;

/// Envelope version of the one-shot matcher.
pub const LEGACY_STATE_VERSION: u32 = 1;

/// Payload size of [`STATE_VERSION`] in bytes.
pub const STATE_PAYLOAD_BYTES: usize = 16;

/// Payload size that suffices before version 5, in bytes.
pub const OLD_PAYLOAD_BYTES: usize = 12;

/// A decoded project state.
#[derive(Clone, Copy, Debug, PartialEq, Eq, Structural)]
pub struct StateSnapshot {
    /// Target level in dBFS.
    pub target_db: u32,
    /// Whether matching was enabled when the project was saved.
    pub match_requested: bool,
    /// Last calculated gain correction in dB.
    pub locked_gain_db: u32,
    /// RMS mode; off in projects that predate it.
    pub rms_mode: bool,
    /// Whether a match was completed; off in projects that predate the flag.
    pub has_match_result: bool,
    /// Manually adjusted gain in dB; 0 dB in projects that predate it.
    pub manual_gain_db: u32,
    /// Whether the manually adjusted gain is selected.
    pub manual_mode: bool,
}

/// Why a state was refused.
#[derive(Clone, Copy, Debug, PartialEq, Eq, Structural)]
pub enum StateError {
    /// The payload does not decode for its version.
    InvalidPayload,
}

impl StateError {
    /// The message for the host.
    pub fn message(&self) -> (result: &'static str)
        ensures
            result@ == "Invalid GainSnap state payload"@,
    {
        match self {
            StateError::InvalidPayload => "Invalid GainSnap state payload",
        }
    }
}

/// The four bytes from `at` on as a little-endian word.
pub open spec fn word_at(bytes: Seq<u8>, at: int) -> int {
    bytes[at] + 0x100 * bytes[at + 1] + 0x1_0000 * bytes[at + 2] + 0x100_0000 * bytes[at + 3]
}

/// 1 for `true`, 0 for `false`.
pub open spec fn byte_of(on: bool) -> u8 {
    if on {
        1
    } else {
        0
    }
}

/// Whether a payload is the encoding of some controls.
pub open spec fn encodes(payload: Seq<u8>, controls: Controls) -> bool {
    &&& payload.len() == STATE_PAYLOAD_BYTES
    &&& word_at(payload, 0) == controls.target_db
    &&& payload[4] == byte_of(controls.match_requested)
    &&& payload[5] == byte_of(controls.rms_mode)
    &&& payload[6] == byte_of(controls.has_match_result)
    &&& payload[7] == byte_of(controls.manual_mode)
    &&& word_at(payload, 8) == controls.locked_gain_db
    &&& word_at(payload, 12) == controls.manual_gain_db
}

/// Whether a flag byte is one that the version may hold: 0 before the flag was
/// introduced, 0 or 1 from then on.
pub open spec fn flag_allowed(version: u32, since: u32, byte: u8) -> bool {
    byte == 0 || (byte == 1 && version >= since)
}

/// Whether a payload is a valid state of its version. The versions before 5 may
/// come with the full payload size; what they do not know of it is ignored.
pub open spec fn valid_payload(version: u32, payload: Seq<u8>) -> bool {
    &&& LEGACY_STATE_VERSION <= version <= STATE_VERSION
    &&& payload.len() == STATE_PAYLOAD_BYTES || (version < 5 && payload.len() == OLD_PAYLOAD_BYTES)
    &&& flag_allowed(version, 1, payload[4])
    &&& flag_allowed(version, 3, payload[5])
    &&& flag_allowed(version, 4, payload[6])
    &&& flag_allowed(version, 5, payload[7])
    &&& single::finite(word_at(payload, 0) as u32)
    &&& single::finite(word_at(payload, 8) as u32)
    &&& version >= 5 ==> single::finite(word_at(payload, 12) as u32)
}

/// The state that a payload of a version stands for.
///
/// Version 1 stored a high Match value as a one-shot trigger, so it never
/// reopens a measurement.
pub open spec fn decoded(version: u32, payload: Seq<u8>) -> Option<StateSnapshot> {
    if valid_payload(version, payload) {
        Some(
            StateSnapshot {
                target_db: word_at(payload, 0) as u32,
                match_requested: version != LEGACY_STATE_VERSION && payload[4] == 1,
                locked_gain_db: word_at(payload, 8) as u32,
                rms_mode: payload[5] == 1,
                has_match_result: payload[6] == 1,
                manual_gain_db: if version >= 5 {
                    word_at(payload, 12) as u32
                } else {
                    single::ZERO
                },
                manual_mode: payload[7] == 1,
            },
        )
    } else {
        None
    }
}

/// The controls after a snapshot was applied to them.
pub open spec fn restored(controls: Controls, snapshot: StateSnapshot) -> Controls {
    Controls {
        target_db: crate::params::target_in_range(snapshot.target_db),
        match_requested: snapshot.match_requested,
        locked_gain_db: crate::params::gain_in_range(snapshot.locked_gain_db),
        rms_mode: snapshot.rms_mode,
        manual_gain_db: crate::params::gain_in_range(snapshot.manual_gain_db),
        manual_mode: snapshot.manual_mode,
        has_match_result: snapshot.has_match_result,
        restart_generation: controls.restart_generation,
    }
}

/// Split a word into its four bytes, the lowest first.
fn word_bytes(value: u32) -> (result: (u8, u8, u8, u8))
    ensures
        result.0 + 0x100 * result.1 + 0x1_0000 * result.2 + 0x100_0000 * result.3 == value,
{
    let low: u32 = value % 0x1_0000;
    let high: u32 = value / 0x1_0000;
    ((low % 256) as u8, (low / 256) as u8, (high % 256) as u8, (high / 256) as u8)
}

fn flag_byte(on: bool) -> (result: u8)
    ensures
        result == byte_of(on),
{
    if on {
        1
    } else {
        0
    }
}

/// Encode the current parameters as a payload of [`STATE_VERSION`].
pub fn encode_payload(params: &GainSnapParams) -> (result: [u8; 16])
    ensures
        encodes(result@, params@),
{
    let target: (u8, u8, u8, u8) = word_bytes(params.target_db());
    let locked: (u8, u8, u8, u8) = word_bytes(params.locked_gain_db());
    let manual: (u8, u8, u8, u8) = word_bytes(params.manual_gain_db());
    [
        target.0,
        target.1,
        target.2,
        target.3,
        flag_byte(params.match_requested()),
        flag_byte(params.rms_mode()),
        flag_byte(params.has_match_result()),
        flag_byte(params.manual_mode()),
        locked.0,
        locked.1,
        locked.2,
        locked.3,
        manual.0,
        manual.1,
        manual.2,
        manual.3,
    ]
}

fn read_word(payload: &[u8], at: usize) -> (result: u32)
    requires
        at + 4 <= payload@.len(),
    ensures
        result == word_at(payload@, at as int),
{
    payload[at] as u32 + 0x100 * (payload[at + 1] as u32) + 0x1_0000 * (payload[at + 2] as u32)
        + 0x100_0000 * (payload[at + 3] as u32)
}

fn flag_refused(version: u32, since: u32, byte: u8) -> (result: bool)
    ensures
        result == !flag_allowed(version, since, byte),
{
    byte > 1 || (byte == 1 && version < since)
}

/// The envelope versions that are accepted for loading, the current one first.
pub fn accepted_state_versions() -> (result: [u32; 5])
    ensures
        forall|version: u32|
            LEGACY_STATE_VERSION <= version <= STATE_VERSION <==> result@.contains(version),
        result@[0] == STATE_VERSION,
{
    let versions: [u32; 5] = [STATE_VERSION, 4, 3, 2, LEGACY_STATE_VERSION];
    proof {
        assert(versions@[0] == 5 && versions@[1] == 4 && versions@[2] == 3 && versions@[3] == 2
            && versions@[4] == 1);
    }
    versions
}

/// Decode and validate a payload for a supported version.
pub fn decode_payload(version: u32, payload: &[u8]) -> (result: Option<StateSnapshot>)
    ensures
        result == decoded(version, payload@),
{
    if version < LEGACY_STATE_VERSION || version > STATE_VERSION {
        return None;
    }
    if payload.len() != STATE_PAYLOAD_BYTES && (version >= 5 || payload.len() != OLD_PAYLOAD_BYTES) {
        return None;
    }
    if flag_refused(version, 5, payload[7]) || flag_refused(version, 4, payload[6])
        || flag_refused(version, 3, payload[5]) {
        return None;
    }
    let target_db: u32 = read_word(payload, 0);
    let locked_gain_db: u32 = read_word(payload, 8);
    let manual_gain_db: u32 = if version >= 5 {
        read_word(payload, 12)
    } else {
        single::ZERO
    };
    if !single::is_finite(target_db) || !single::is_finite(locked_gain_db) || !single::is_finite(
        manual_gain_db,
    ) || payload[4] > 1 {
        return None;
    }
    Some(
        StateSnapshot {
            target_db,
            match_requested: version != LEGACY_STATE_VERSION && payload[4] != 0,
            locked_gain_db,
            rms_mode: payload[5] != 0,
            has_match_result: payload[6] != 0,
            manual_gain_db,
            manual_mode: payload[7] != 0,
        },
    )
}

/// Decode a payload that came with a CLAP project.
pub fn decode_clap_state_payload(version: u32, payload: &[u8]) -> (result: Result<
    StateSnapshot,
    StateError,
>)
    ensures
        result == (match decoded(version, payload@) {
            Some(snapshot) => Ok(snapshot),
            None => Err(StateError::InvalidPayload),
        }),
{
    match decode_payload(version, payload) {
        Some(snapshot) => Ok(snapshot),
        None => Err(StateError::InvalidPayload),
    }
}

/// Decode a payload that came with a VST3 project, which only the current
/// version can have written.
pub fn decode_vst3_state_payload(version: u32, payload: &[u8]) -> (result: Option<StateSnapshot>)
    ensures
        result == (if version == STATE_VERSION {
            decoded(version, payload@)
        } else {
            None
        }),
        result is Some ==> version == 5 && payload@.len() == 16,
{
    if version != STATE_VERSION || payload.len() != STATE_PAYLOAD_BYTES {
        return None;
    }
    decode_payload(version, payload)
}

/// Apply a decoded snapshot to a parameter store.
pub fn apply_snapshot(params: &mut GainSnapParams, snapshot: StateSnapshot)
    ensures
        final(params)@ == restored(old(params)@, snapshot),
{
    params.set_param(PARAM_RMS_MODE, single::from_bool(snapshot.rms_mode));
    params.set_param(PARAM_TARGET_DB, snapshot.target_db);
    params.set_param(PARAM_MATCH, single::from_bool(snapshot.match_requested));
    params.set_param(PARAM_LOCKED_GAIN_DB, snapshot.locked_gain_db);
    params.set_param(PARAM_MANUAL_GAIN_DB, snapshot.manual_gain_db);
    params.set_param(PARAM_MANUAL_MODE, single::from_bool(snapshot.manual_mode));
    params.set_has_match_result(snapshot.has_match_result);
}

/// A saved state reopens as it was: the payload of any controls decodes, and
/// applying what it decodes to gives every stored value back.
pub proof fn saved_state_reopens_unchanged(saved: Controls, payload: Seq<u8>, other: Controls)
    requires
        crate::params::in_range(saved),
        encodes(payload, saved),
    ensures
        decoded(STATE_VERSION, payload) is Some,
        restored(other, decoded(STATE_VERSION, payload)->0) == (Controls {
            restart_generation: other.restart_generation,
            ..saved
        }),
{
}

/// Two controls have the same payload only where they store the same values.
pub proof fn payloads_tell_controls_apart(a: Controls, b: Controls, payload: Seq<u8>)
    requires
        encodes(payload, a),
        encodes(payload, b),
    ensures
        a == (Controls { restart_generation: a.restart_generation, ..b }),
{
}

/// What is restored from any accepted payload is inside the ranges, whatever
/// numbers the payload holds.
pub proof fn restored_levels_are_in_range(controls: Controls, version: u32, payload: Seq<u8>)
    requires
        decoded(version, payload) is Some,
    ensures
        crate::params::in_range(restored(controls, decoded(version, payload)->0)),
{
}

/// Older projects do not switch on what their version did not know: version 1
/// never reopens Match, versions before 3 stay in Peak mode, versions before 4
/// hold no completed match, and versions before 5 hold no manual gain.
pub proof fn older_projects_keep_newer_features_off(version: u32, payload: Seq<u8>)
    requires
        decoded(version, payload) is Some,
    ensures
        ({
            let snapshot = decoded(version, payload)->0;
            &&& version == LEGACY_STATE_VERSION ==> !snapshot.match_requested
            &&& version < 3 ==> !snapshot.rms_mode
            &&& version < 4 ==> !snapshot.has_match_result
            &&& version < 5 ==> !snapshot.manual_mode && snapshot.manual_gain_db == single::ZERO
        }),
{
}

/// Every version keeps the target level and the locked gain that it was saved
/// with.
pub proof fn every_version_keeps_target_and_gain(version: u32, payload: Seq<u8>)
    requires
        decoded(version, payload) is Some,
    ensures
        decoded(version, payload)->0.target_db == word_at(payload, 0),
        decoded(version, payload)->0.locked_gain_db == word_at(payload, 8),
{
}

/// A version before 5 reads the full payload of a state that its flags allow:
/// target and gain are kept, a version 1 project opens with Match off, and the
/// manual gain behind them is ignored.
pub proof fn older_versions_ignore_what_they_do_not_know(
    version: u32,
    payload: Seq<u8>,
    saved: Controls,
)
    requires
        LEGACY_STATE_VERSION <= version < 5,
        crate::params::in_range(saved),
        encodes(payload, saved),
        saved.rms_mode ==> version >= 3,
        saved.has_match_result ==> version >= 4,
        !saved.manual_mode,
    ensures
        decoded(version, payload) == Some(
            StateSnapshot {
                target_db: saved.target_db,
                match_requested: saved.match_requested && version != LEGACY_STATE_VERSION,
                locked_gain_db: saved.locked_gain_db,
                rms_mode: saved.rms_mode,
                has_match_result: saved.has_match_result,
                manual_gain_db: single::ZERO,
                manual_mode: false,
            },
        ),
        decoded(version, payload.take(OLD_PAYLOAD_BYTES as int)) == decoded(version, payload),
{
}

/// A payload holds the target, four flags, the locked gain and the manual gain,
/// each word with its lowest byte first, and every flag as 0 or 1.
pub proof fn payloads_are_laid_out_byte_by_byte(payload: Seq<u8>, controls: Controls)
    requires
        encodes(payload, controls),
    ensures
        payload.len() == 16,
        controls.target_db == payload[0] + 256 * (payload[1] + 256 * (payload[2] + 256
            * payload[3])),
        payload[4] == (if controls.match_requested {
            1
        } else {
            0int
        }),
        payload[5] == (if controls.rms_mode {
            1
        } else {
            0int
        }),
        payload[6] == (if controls.has_match_result {
            1
        } else {
            0int
        }),
        payload[7] == (if controls.manual_mode {
            1
        } else {
            0int
        }),
        controls.locked_gain_db == payload[8] + 256 * (payload[9] + 256 * (payload[10] + 256
            * payload[11])),
        controls.manual_gain_db == payload[12] + 256 * (payload[13] + 256 * (payload[14] + 256
            * payload[15])),
{
}

/// A payload is refused for an unknown version, for a length that its version
/// did not write, for a flag that is neither 0 nor 1 or newer than its version,
/// and for a level that is not finite; every other payload decodes.
pub proof fn payloads_are_refused_only_for_a_reason(version: u32, payload: Seq<u8>)
    requires
        payload.len() == 12 || payload.len() == 16,
    ensures
        decoded(version, payload) is Some <==> {
            &&& 1 <= version <= 5
            &&& version == 5 ==> payload.len() == 16
            &&& payload[4] <= 1
            &&& payload[5] == 0 || (payload[5] == 1 && version >= 3)
            &&& payload[6] == 0 || (payload[6] == 1 && version >= 4)
            &&& payload[7] == 0 || (payload[7] == 1 && version == 5)
            &&& single::finite(word_at(payload, 0) as u32)
            &&& single::finite(word_at(payload, 8) as u32)
            &&& version == 5 ==> single::finite(word_at(payload, 12) as u32)
        },
{
}

/// No payload of another length decodes.
pub proof fn other_lengths_are_refused(version: u32, payload: Seq<u8>)
    requires
        payload.len() != 12,
        payload.len() != 16,
    ensures
        decoded(version, payload) is None,
{
}

/// A decoded payload says what its bytes say: the flags are its flag bytes, but
/// for Match in version 1, which never reopens.
pub proof fn decoded_states_are_their_bytes(version: u32, payload: Seq<u8>)
    requires
        decoded(version, payload) is Some,
    ensures
        ({
            let snapshot = decoded(version, payload)->0;
            &&& snapshot.target_db == payload[0] + 256 * (payload[1] + 256 * (payload[2] + 256
                * payload[3]))
            &&& snapshot.locked_gain_db == payload[8] + 256 * (payload[9] + 256 * (payload[10] + 256
                * payload[11]))
            &&& snapshot.match_requested <==> payload[4] == 1 && version > 1
            &&& snapshot.rms_mode <==> payload[5] == 1
            &&& snapshot.has_match_result <==> payload[6] == 1
            &&& snapshot.manual_mode <==> payload[7] == 1
            &&& version == 5 ==> snapshot.manual_gain_db == payload[12] + 256 * (payload[13] + 256
                * (payload[14] + 256 * payload[15]))
            &&& version < 5 ==> snapshot.manual_gain_db == 0
        }),
{
}

/// Applying a snapshot stores every value of it, each level brought into its
/// range, and counts no restart.
pub proof fn snapshots_are_applied_in_full(controls: Controls, snapshot: StateSnapshot)
    ensures
        ({
            let after = restored(controls, snapshot);
            &&& after.target_db == crate::params::target_in_range(snapshot.target_db)
            &&& after.locked_gain_db == crate::params::gain_in_range(snapshot.locked_gain_db)
            &&& after.manual_gain_db == crate::params::gain_in_range(snapshot.manual_gain_db)
            &&& after.match_requested == snapshot.match_requested
            &&& after.rms_mode == snapshot.rms_mode
            &&& after.manual_mode == snapshot.manual_mode
            &&& after.has_match_result == snapshot.has_match_result
            &&& after.restart_generation == controls.restart_generation
        }),
{
}

/// The envelope is marked with the four letters GNSP and the fifth version.
pub proof fn envelopes_are_marked()
    ensures
        STATE_MAGIC == 0x47 + 256 * (0x4e + 256 * (0x53 + 256 * 0x50)),
        STATE_VERSION == 5,
        LEGACY_STATE_VERSION == 1,
{
}

} // verus!
