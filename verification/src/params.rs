//! Parameter identifiers, ranges, host metadata and the parameter store.
use vstd::prelude::*;

use crate::double;
use crate::single;
use crate::text;

verus! {

/// Target level parameter identifier.
pub const PARAM_TARGET_DB: u32 = 1;

/// Match toggle parameter identifier.
pub const PARAM_MATCH: u32 = 2;

/// Calculated gain parameter identifier.
pub const PARAM_LOCKED_GAIN_DB: u32 = 3;

/// Measurement mode parameter identifier: 0 for Peak, 1 for RMS.
pub const PARAM_RMS_MODE: u32 = 4;

/// Manual gain parameter identifier; stored with the project, not offered to hosts.
pub const PARAM_MANUAL_GAIN_DB: u32 = 5;

/// Manual mode parameter identifier; stored with the project, not offered to hosts.
pub const PARAM_MANUAL_MODE: u32 = 6;

/// Lowest supported target level: -36 dBFS.
pub const TARGET_MIN_DB: u32 = 0xc210_0000;

/// Highest supported target level: 0 dBFS.
pub const TARGET_MAX_DB: u32 = 0;

/// Target level of a new instance: -12 dBFS.
pub const DEFAULT_TARGET_DB: u32 = 0xc140_0000;

/// Lowest gain correction: -36 dB.
pub const GAIN_MIN_DB: u32 = 0xc210_0000;

/// Highest gain correction: +120 dB.
pub const GAIN_MAX_DB: u32 = 0x42f0_0000;

/// Gain correction before the first successful match: 0 dB.
pub const DEFAULT_LOCKED_GAIN_DB: u32 = 0;

/// A target level brought into the supported range.
pub open spec fn target_in_range(value: u32) -> u32 {
    single::sanitized(value, TARGET_MIN_DB, TARGET_MAX_DB, DEFAULT_TARGET_DB)
}

/// A gain correction brought into the supported range.
pub open spec fn gain_in_range(value: u32) -> u32 {
    single::sanitized(value, GAIN_MIN_DB, GAIN_MAX_DB, DEFAULT_LOCKED_GAIN_DB)
}

/// Compute [`target_in_range`].
pub fn sanitize_target(value: u32) -> (result: u32)
    ensures
        result == target_in_range(value),
{
    single::sanitize(value, TARGET_MIN_DB, TARGET_MAX_DB, DEFAULT_TARGET_DB)
}

/// Compute [`gain_in_range`].
pub fn sanitize_gain(value: u32) -> (result: u32)
    ensures
        result == gain_in_range(value),
{
    single::sanitize(value, GAIN_MIN_DB, GAIN_MAX_DB, DEFAULT_LOCKED_GAIN_DB)
}

/// Host metadata of one exposed parameter; the bounds and the default are
/// double-precision patterns.
#[derive(Clone, Copy, Debug)]
pub struct ParamDef {
    /// Stable identifier.
    pub id: u32,
    /// Display title.
    pub name: &'static str,
    /// Module label.
    pub module: &'static str,
    /// Plain-value lower bound.
    pub min: u64,
    /// Plain-value upper bound.
    pub max: u64,
    /// Plain-value default.
    pub default: u64,
    /// Whether hosts may automate the parameter.
    pub automatable: bool,
    /// Whether hosts should present a stepped control.
    pub stepped: bool,
}

/// VST3 metadata of one exposed parameter.
#[derive(Clone, Copy, Debug)]
pub struct Vst3ParamInfo {
    /// VST3 parameter identifier.
    pub id: u32,
    /// Long title.
    pub title: &'static str,
    /// Short title.
    pub short_title: &'static str,
    /// Unit label.
    pub units: &'static str,
    /// Number of steps, 0 for a continuous control.
    pub step_count: i32,
    /// Default in normalized space, a double-precision pattern.
    pub default_normalized: u64,
    /// Whether hosts may automate the parameter.
    pub automatable: bool,
}

/// What is shown for a parameter value.
#[derive(Clone, Copy, Debug)]
pub enum ValueText {
    /// A level with one decimal and the unit dB.
    Level(u32),
    /// A signed gain with two decimals and the unit dB.
    Gain(u32),
    /// A fixed word.
    Word(&'static str),
}

/// Number of parameters offered to hosts.
pub const PARAMETER_COUNT: usize = 4;

/// The parameters offered to hosts, in their stable order.
pub open spec fn exposed(index: int) -> Option<ParamDef> {
    if index == 0 {
        Some(
            ParamDef {
                id: PARAM_TARGET_DB,
                name: "Target Peak",
                module: "Match",
                min: 0xc042_0000_0000_0000,
                max: 0,
                default: 0xc028_0000_0000_0000,
                automatable: true,
                stepped: false,
            },
        )
    } else if index == 1 {
        Some(
            ParamDef {
                id: PARAM_MATCH,
                name: "Match Now",
                module: "Match",
                min: 0,
                max: double::ONE,
                default: 0,
                automatable: true,
                stepped: true,
            },
        )
    } else if index == 2 {
        Some(
            ParamDef {
                id: PARAM_LOCKED_GAIN_DB,
                name: "Locked Gain",
                module: "Result",
                min: 0xc042_0000_0000_0000,
                max: 0x405e_0000_0000_0000,
                default: 0,
                automatable: false,
                stepped: false,
            },
        )
    } else if index == 3 {
        Some(
            ParamDef {
                id: PARAM_RMS_MODE,
                name: "RMS Mode",
                module: "Match",
                min: 0,
                max: double::ONE,
                default: 0,
                automatable: true,
                stepped: true,
            },
        )
    } else {
        None
    }
}

/// The place of an identifier among the parameters offered to hosts.
pub open spec fn exposed_index(id: u32) -> Option<int> {
    if PARAM_TARGET_DB <= id <= PARAM_RMS_MODE {
        Some(id - 1)
    } else {
        None
    }
}

/// The metadata that belongs to an identifier.
pub open spec fn exposed_as(id: u32) -> Option<ParamDef> {
    match exposed_index(id) {
        Some(index) => exposed(index),
        None => None,
    }
}

/// Number of parameters offered to hosts.
pub fn param_count() -> (result: u32)
    ensures
        result == PARAMETER_COUNT,
        forall|index: int| 0 <= index < result <==> #[trigger] exposed(index) is Some,
{
    4
}

/// Metadata for a parameter index.
pub fn param_def(index: u32) -> (result: Option<ParamDef>)
    ensures
        result == exposed(index as int),
{
    if index == 0 {
        Some(
            ParamDef {
                id: PARAM_TARGET_DB,
                name: "Target Peak",
                module: "Match",
                min: 0xc042_0000_0000_0000,
                max: 0,
                default: 0xc028_0000_0000_0000,
                automatable: true,
                stepped: false,
            },
        )
    } else if index == 1 {
        Some(
            ParamDef {
                id: PARAM_MATCH,
                name: "Match Now",
                module: "Match",
                min: 0,
                max: double::ONE,
                default: 0,
                automatable: true,
                stepped: true,
            },
        )
    } else if index == 2 {
        Some(
            ParamDef {
                id: PARAM_LOCKED_GAIN_DB,
                name: "Locked Gain",
                module: "Result",
                min: 0xc042_0000_0000_0000,
                max: 0x405e_0000_0000_0000,
                default: 0,
                automatable: false,
                stepped: false,
            },
        )
    } else if index == 3 {
        Some(
            ParamDef {
                id: PARAM_RMS_MODE,
                name: "RMS Mode",
                module: "Match",
                min: 0,
                max: double::ONE,
                default: 0,
                automatable: true,
                stepped: true,
            },
        )
    } else {
        None
    }
}

/// The place of an identifier among the parameters offered to hosts.
pub fn param_index(id: u32) -> (result: Option<usize>)
    ensures
        result is Some <==> exposed_index(id) is Some,
        result is Some ==> result->0 == exposed_index(id)->0 && result->0 < PARAMETER_COUNT,
{
    if PARAM_TARGET_DB <= id && id <= PARAM_RMS_MODE {
        Some((id - 1) as usize)
    } else {
        None
    }
}

/// Metadata for a parameter identifier.
fn def_of(id: u32) -> (result: Option<ParamDef>)
    ensures
        result == exposed_as(id),
{
    if PARAM_TARGET_DB <= id && id <= PARAM_RMS_MODE {
        param_def(id - 1)
    } else {
        None
    }
}

/// Accept a VST3 parameter identifier that names a parameter offered to hosts.
pub fn clap_id_from_vst3_param_id(id: u32) -> (result: Option<u32>)
    ensures
        result == (if exposed_as(id) is Some {
            Some(id)
        } else {
            None
        }),
        result is Some ==> exposed_as(id)->0.id == id,
{
    if def_of(id).is_some() {
        Some(id)
    } else {
        None
    }
}

/// VST3 metadata for a parameter index.
pub fn vst3_param_info_for_index(index: i32) -> (result: Option<Vst3ParamInfo>)
    ensures
        result == vst3_info(index as int),
{
    if index == 0 {
        Some(
            Vst3ParamInfo {
                id: PARAM_TARGET_DB,
                title: "Target Peak",
                short_title: "Target",
                units: "dBFS",
                step_count: 0,
                default_normalized: 0x3fe5_5555_5555_5555,
                automatable: true,
            },
        )
    } else if index == 1 {
        Some(
            Vst3ParamInfo {
                id: PARAM_MATCH,
                title: "Match Now",
                short_title: "Match",
                units: "",
                step_count: 1,
                default_normalized: 0,
                automatable: true,
            },
        )
    } else if index == 2 {
        Some(
            Vst3ParamInfo {
                id: PARAM_LOCKED_GAIN_DB,
                title: "Locked Gain",
                short_title: "Gain",
                units: "dB",
                step_count: 0,
                default_normalized: 0x3fcd_89d8_9d89_d89e,
                automatable: false,
            },
        )
    } else if index == 3 {
        Some(
            Vst3ParamInfo {
                id: PARAM_RMS_MODE,
                title: "RMS Mode",
                short_title: "RMS",
                units: "",
                step_count: 1,
                default_normalized: 0,
                automatable: true,
            },
        )
    } else {
        None
    }
}

/// VST3 metadata in the order of [`exposed`]: a step for each stepped control,
/// and the normalized place of each default (two thirds of the target range,
/// three thirteenths of the gain range).
pub open spec fn vst3_info(index: int) -> Option<Vst3ParamInfo> {
    match exposed(index) {
        Some(def) => Some(
            Vst3ParamInfo {
                id: def.id,
                title: def.name,
                short_title: if index == 0 {
                    "Target"
                } else if index == 1 {
                    "Match"
                } else if index == 2 {
                    "Gain"
                } else {
                    "RMS"
                },
                units: if index == 0 {
                    "dBFS"
                } else if index == 2 {
                    "dB"
                } else {
                    ""
                },
                step_count: if def.stepped {
                    1
                } else {
                    0
                },
                default_normalized: if index == 0 {
                    0x3fe5_5555_5555_5555
                } else if index == 2 {
                    0x3fcd_89d8_9d89_d89e
                } else {
                    0
                },
                automatable: def.automatable,
            },
        ),
        None => None,
    }
}

/// Bound a plain value to the range of its parameter, in double precision.
///
/// The caller divides the distance from the lower bound by the width of the
/// range and hands the quotient to [`normalized_from_plain_value`].
pub fn plain_in_range(id: u32, value: u64) -> (result: Option<u64>)
    ensures
        result == (match exposed_as(id) {
            Some(def) => Some(double::clamped(value, def.min, def.max)),
            None => None,
        }),
        result is Some <==> 1 <= id <= 4,
        id == 1 && !double::nan(value) ==> double::at_most(0xc042_0000_0000_0000, result->0)
            && double::at_most(result->0, 0),
        id == 3 && !double::nan(value) ==> double::at_most(0xc042_0000_0000_0000, result->0)
            && double::at_most(result->0, 0x405e_0000_0000_0000),
        id == 1 && double::at_most(0xc042_0000_0000_0000, value) && double::at_most(value, 0)
            ==> result->0 == value,
        id == 3 && double::at_most(0xc042_0000_0000_0000, value) && double::at_most(
            value,
            0x405e_0000_0000_0000,
        ) ==> result->0 == value,
{
    match def_of(id) {
        Some(def) => Some(double::clamp(value, def.min, def.max)),
        None => None,
    }
}

/// Finish a conversion into normalized space: the quotient, bounded to 0..=1,
/// for a parameter offered to hosts.
pub fn normalized_from_plain_value(id: u32, quotient: u64) -> (result: Option<u64>)
    ensures
        result == (if exposed_as(id) is Some {
            Some(double::clamped(quotient, double::ZERO, double::ONE))
        } else {
            None
        }),
        result is Some <==> 1 <= id <= 4,
        result is Some && quotient <= 0x3ff0_0000_0000_0000 ==> result->0 == quotient,
        result is Some && double::below(quotient, 0) ==> result->0 == 0,
        result is Some && double::below(0x3ff0_0000_0000_0000, quotient) ==> result->0
            == 0x3ff0_0000_0000_0000,
{
    if def_of(id).is_some() {
        Some(double::clamp(quotient, double::ZERO, double::ONE))
    } else {
        None
    }
}

/// Prepare a conversion out of normalized space: the bounded normalized value,
/// with the range that the caller scales it to.
pub fn plain_from_normalized_value(id: u32, normalized: u64) -> (result: Option<(u64, u64, u64)>)
    ensures
        result == (match exposed_as(id) {
            Some(def) => Some(
                (double::clamped(normalized, double::ZERO, double::ONE), def.min, def.max),
            ),
            None => None,
        }),
        result is Some <==> 1 <= id <= 4,
        result matches Some((share, low, high)) ==> {
            &&& normalized <= 0x3ff0_0000_0000_0000 ==> share == normalized
            &&& double::below(normalized, 0) ==> share == 0
            &&& double::below(0x3ff0_0000_0000_0000, normalized) ==> share == 0x3ff0_0000_0000_0000
            &&& id == 1 ==> low == 0xc042_0000_0000_0000 && high == 0
            &&& id == 3 ==> low == 0xc042_0000_0000_0000 && high == 0x405e_0000_0000_0000
            &&& id == 2 || id == 4 ==> low == 0 && high == 0x3ff0_0000_0000_0000
        },
{
    match def_of(id) {
        Some(def) => Some((double::clamp(normalized, double::ZERO, double::ONE), def.min, def.max)),
        None => None,
    }
}

/// Apply a plain value that was scaled out of normalized space; reports whether
/// the parameter is offered to hosts.
pub fn apply_normalized_param_value(params: &mut GainSnapParams, id: u32, plain: u32) -> (result:
    bool)
    ensures
        result == (exposed_as(id) is Some),
        final(params)@ == (if result {
            with_param(old(params)@, id, plain)
        } else {
            old(params)@
        }),
        result <==> 1 <= id <= 4,
        final(params)@.manual_gain_db == old(params)@.manual_gain_db,
        final(params)@.manual_mode == old(params)@.manual_mode,
        id == 1 ==> final(params)@.target_db == target_in_range(plain),
        id == 3 ==> final(params)@.locked_gain_db == gain_in_range(plain),
{
    if def_of(id).is_none() {
        return false;
    }
    params.set_param(id, plain);
    true
}

/// What is shown for a value of a parameter, where `narrowed` is `value` in
/// single precision.
pub open spec fn shown(id: u32, value: u64, narrowed: u32) -> Option<ValueText> {
    if id == PARAM_TARGET_DB {
        Some(ValueText::Level(target_in_range(narrowed)))
    } else if id == PARAM_MATCH {
        Some(
            ValueText::Word(
                if double::at_most(double::HALF, value) {
                    "Ready"
                } else {
                    "Off"
                },
            ),
        )
    } else if id == PARAM_LOCKED_GAIN_DB {
        Some(ValueText::Gain(gain_in_range(narrowed)))
    } else if id == PARAM_RMS_MODE {
        Some(
            ValueText::Word(
                if double::at_most(double::HALF, value) {
                    "RMS"
                } else {
                    "PEAK"
                },
            ),
        )
    } else {
        None
    }
}

/// Compute [`shown`].
pub fn value_to_text(id: u32, value: u64, narrowed: u32) -> (result: Option<ValueText>)
    ensures
        result == shown(id, value, narrowed),
{
    if id == PARAM_TARGET_DB {
        Some(ValueText::Level(sanitize_target(narrowed)))
    } else if id == PARAM_MATCH {
        if double::less_or_equal(double::HALF, value) {
            Some(ValueText::Word("Ready"))
        } else {
            Some(ValueText::Word("Off"))
        }
    } else if id == PARAM_LOCKED_GAIN_DB {
        Some(ValueText::Gain(sanitize_gain(narrowed)))
    } else if id == PARAM_RMS_MODE {
        if double::less_or_equal(double::HALF, value) {
            Some(ValueText::Word("RMS"))
        } else {
            Some(ValueText::Word("PEAK"))
        }
    } else {
        None
    }
}

/// The part of an entered text that is to be read as a number.
pub open spec fn number_part(entered: Seq<char>) -> Seq<char> {
    text::trimmed(text::without_unit(text::trimmed(entered), "dB"@))
}

/// Compute [`number_part`] for the parameters that are entered as a number.
pub fn number_text<'a>(id: u32, entered: &'a str) -> (result: Option<&'a str>)
    ensures
        result is Some <==> id == PARAM_TARGET_DB || id == PARAM_LOCKED_GAIN_DB,
        result is Some ==> result->0@ == number_part(entered@),
{
    if id == PARAM_TARGET_DB || id == PARAM_LOCKED_GAIN_DB {
        Some(text::trim(text::strip_unit(text::trim(entered), "dB")))
    } else {
        None
    }
}

/// The plain value that an entered text stands for, where `number` is what
/// [`number_part`] reads as, if it is a number at all.
pub open spec fn entered_value(id: u32, entered: Seq<char>, number: Option<u32>) -> Option<u32> {
    let word = text::trimmed(entered);
    if id == PARAM_TARGET_DB {
        match number {
            Some(value) if single::finite(value) => Some(target_in_range(value)),
            _ => None,
        }
    } else if id == PARAM_LOCKED_GAIN_DB {
        match number {
            Some(value) if single::finite(value) => Some(gain_in_range(value)),
            _ => None,
        }
    } else if id == PARAM_MATCH {
        if text::same_word(word, "ready"@) || text::same_word(word, "on"@) || word == "1"@ {
            Some(single::ONE)
        } else if text::same_word(word, "off"@) || word == "0"@ {
            Some(single::ZERO)
        } else {
            None
        }
    } else if id == PARAM_RMS_MODE {
        if text::same_word(word, "rms"@) || word == "1"@ {
            Some(single::ONE)
        } else if text::same_word(word, "peak"@) || word == "0"@ {
            Some(single::ZERO)
        } else {
            None
        }
    } else {
        None
    }
}

/// Compute [`entered_value`].
pub fn text_to_value(id: u32, entered: &str, number: Option<u32>) -> (result: Option<u32>)
    ensures
        result == entered_value(id, entered@, number),
{
    let word: &str = text::trim(entered);
    if id == PARAM_TARGET_DB {
        match number {
            Some(value) => {
                if single::is_finite(value) {
                    Some(sanitize_target(value))
                } else {
                    None
                }
            },
            None => None,
        }
    } else if id == PARAM_LOCKED_GAIN_DB {
        match number {
            Some(value) => {
                if single::is_finite(value) {
                    Some(sanitize_gain(value))
                } else {
                    None
                }
            },
            None => None,
        }
    } else if id == PARAM_MATCH {
        if text::is_word(word, "ready") || text::is_word(word, "on") || text::equal(word, "1") {
            Some(single::ONE)
        } else if text::is_word(word, "off") || text::equal(word, "0") {
            Some(single::ZERO)
        } else {
            None
        }
    } else if id == PARAM_RMS_MODE {
        if text::is_word(word, "rms") || text::equal(word, "1") {
            Some(single::ONE)
        } else if text::is_word(word, "peak") || text::equal(word, "0") {
            Some(single::ZERO)
        } else {
            None
        }
    } else {
        None
    }
}

/// The values that a parameter store holds.
#[derive(Clone, Copy, Debug, PartialEq, Eq, Structural)]
pub struct Controls {
    /// Target level in dBFS.
    pub target_db: u32,
    /// Whether matching is requested.
    pub match_requested: bool,
    /// Last calculated gain correction in dB.
    pub locked_gain_db: u32,
    /// Whether levels are measured as RMS instead of peaks.
    pub rms_mode: bool,
    /// Manually adjusted gain in dB.
    pub manual_gain_db: u32,
    /// Whether the manually adjusted gain is selected.
    pub manual_mode: bool,
    /// Whether a match was completed.
    pub has_match_result: bool,
    /// Number of requests for a fresh measurement, wrapping.
    pub restart_generation: u32,
}

/// The values of a new store.
pub open spec fn initial_controls() -> Controls {
    Controls {
        target_db: DEFAULT_TARGET_DB,
        match_requested: false,
        locked_gain_db: DEFAULT_LOCKED_GAIN_DB,
        rms_mode: false,
        manual_gain_db: DEFAULT_LOCKED_GAIN_DB,
        manual_mode: false,
        has_match_result: false,
        restart_generation: 0,
    }
}

/// The values after one plain parameter value was stored.
pub open spec fn with_param(controls: Controls, id: u32, value: u32) -> Controls {
    if id == PARAM_TARGET_DB {
        Controls { target_db: target_in_range(value), ..controls }
    } else if id == PARAM_MATCH {
        Controls { match_requested: single::switches_on(value), ..controls }
    } else if id == PARAM_LOCKED_GAIN_DB {
        Controls { locked_gain_db: gain_in_range(value), ..controls }
    } else if id == PARAM_RMS_MODE {
        Controls { rms_mode: single::switches_on(value), ..controls }
    } else if id == PARAM_MANUAL_GAIN_DB {
        Controls { manual_gain_db: gain_in_range(value), ..controls }
    } else if id == PARAM_MANUAL_MODE {
        Controls { manual_mode: single::switches_on(value), ..controls }
    } else {
        controls
    }
}

/// The plain value of a known parameter.
pub open spec fn param_of(controls: Controls, id: u32) -> Option<u32> {
    if id == PARAM_TARGET_DB {
        Some(controls.target_db)
    } else if id == PARAM_MATCH {
        Some(single::flag(controls.match_requested))
    } else if id == PARAM_LOCKED_GAIN_DB {
        Some(controls.locked_gain_db)
    } else if id == PARAM_RMS_MODE {
        Some(single::flag(controls.rms_mode))
    } else if id == PARAM_MANUAL_GAIN_DB {
        Some(controls.manual_gain_db)
    } else if id == PARAM_MANUAL_MODE {
        Some(single::flag(controls.manual_mode))
    } else {
        None
    }
}

/// The parameter store of one plug-in instance.
///
/// A level is brought into range both when it is stored and when it is read, so
/// what the store holds is in range whatever its fields are.
#[derive(Clone, Copy, Debug)]
pub struct GainSnapParams {
    target_db: u32,
    match_request: bool,
    locked_gain_db: u32,
    rms_mode: bool,
    manual_gain_db: u32,
    manual_mode: bool,
    has_match_result: bool,
    restart_generation: u32,
}

impl View for GainSnapParams {
    type V = Controls;

    closed spec fn view(&self) -> Controls {
        Controls {
            target_db: target_in_range(self.target_db),
            match_requested: self.match_request,
            locked_gain_db: gain_in_range(self.locked_gain_db),
            rms_mode: self.rms_mode,
            manual_gain_db: gain_in_range(self.manual_gain_db),
            manual_mode: self.manual_mode,
            has_match_result: self.has_match_result,
            restart_generation: self.restart_generation,
        }
    }
}

impl Default for GainSnapParams {
    fn default() -> (result: Self)
        ensures
            result@ == initial_controls(),
    {
        GainSnapParams::new()
    }
}

impl GainSnapParams {
    /// Construct a store with the conservative defaults.
    pub fn new() -> (result: Self)
        ensures
            result@ == initial_controls(),
    {
        GainSnapParams {
            target_db: DEFAULT_TARGET_DB,
            match_request: false,
            locked_gain_db: DEFAULT_LOCKED_GAIN_DB,
            rms_mode: false,
            manual_gain_db: DEFAULT_LOCKED_GAIN_DB,
            manual_mode: false,
            has_match_result: false,
            restart_generation: 0,
        }
    }

    /// Construct a store from values that were read from one, or from elsewhere:
    /// each level is brought into its range.
    pub fn of_values(values: Controls) -> (result: Self)
        ensures
            result@ == (Controls {
                target_db: target_in_range(values.target_db),
                locked_gain_db: gain_in_range(values.locked_gain_db),
                manual_gain_db: gain_in_range(values.manual_gain_db),
                ..values
            }),
            in_range(values) ==> result@ == values,
    {
        GainSnapParams {
            target_db: values.target_db,
            match_request: values.match_requested,
            locked_gain_db: values.locked_gain_db,
            rms_mode: values.rms_mode,
            manual_gain_db: values.manual_gain_db,
            manual_mode: values.manual_mode,
            has_match_result: values.has_match_result,
            restart_generation: values.restart_generation,
        }
    }

    /// Read every value at once.
    pub fn values(&self) -> (result: Controls)
        ensures
            result == self@,
    {
        Controls {
            target_db: self.target_db(),
            match_requested: self.match_request,
            locked_gain_db: self.locked_gain_db(),
            rms_mode: self.rms_mode,
            manual_gain_db: self.manual_gain_db(),
            manual_mode: self.manual_mode,
            has_match_result: self.has_match_result,
            restart_generation: self.restart_generation,
        }
    }

    /// Read the target level in dBFS.
    pub fn target_db(&self) -> (result: u32)
        ensures
            result == self@.target_db,
    {
        sanitize_target(self.target_db)
    }

    /// Read whether matching is requested.
    pub fn match_requested(&self) -> (result: bool)
        ensures
            result == self@.match_requested,
    {
        self.match_request
    }

    /// Read the last calculated gain correction in dB.
    pub fn locked_gain_db(&self) -> (result: u32)
        ensures
            result == self@.locked_gain_db,
    {
        sanitize_gain(self.locked_gain_db)
    }

    /// Read whether levels are measured as RMS.
    pub fn rms_mode(&self) -> (result: bool)
        ensures
            result == self@.rms_mode,
    {
        self.rms_mode
    }

    /// Read the manually adjusted gain in dB.
    pub fn manual_gain_db(&self) -> (result: u32)
        ensures
            result == self@.manual_gain_db,
    {
        sanitize_gain(self.manual_gain_db)
    }

    /// Read whether the manually adjusted gain is selected.
    pub fn manual_mode(&self) -> (result: bool)
        ensures
            result == self@.manual_mode,
    {
        self.manual_mode
    }

    /// Read whether a match was completed.
    pub fn has_match_result(&self) -> (result: bool)
        ensures
            result == self@.has_match_result,
    {
        self.has_match_result
    }

    /// Record whether a match was completed.
    pub fn set_has_match_result(&mut self, completed: bool)
        ensures
            final(self)@ == (Controls { has_match_result: completed, ..old(self)@ }),
    {
        self.has_match_result = completed;
    }

    /// Read how often a fresh measurement was requested.
    pub fn restart_generation(&self) -> (result: u32)
        ensures
            result == self@.restart_generation,
    {
        self.restart_generation
    }

    /// Request a fresh measurement.
    pub fn request_restart(&mut self)
        ensures
            final(self)@ == (Controls {
                restart_generation: if old(self)@.restart_generation == u32::MAX {
                    0
                } else {
                    (old(self)@.restart_generation + 1) as u32
                },
                ..old(self)@
            }),
    {
        self.restart_generation = self.restart_generation.wrapping_add(1);
    }

    /// Store a plain parameter value from a host or an editor.
    pub fn set_param(&mut self, id: u32, value: u32)
        ensures
            final(self)@ == with_param(old(self)@, id, value),
    {
        if id == PARAM_TARGET_DB {
            self.target_db = sanitize_target(value);
        } else if id == PARAM_MATCH {
            self.match_request = single::to_bool(value);
        } else if id == PARAM_LOCKED_GAIN_DB {
            self.locked_gain_db = sanitize_gain(value);
        } else if id == PARAM_RMS_MODE {
            self.rms_mode = single::to_bool(value);
        } else if id == PARAM_MANUAL_GAIN_DB {
            self.manual_gain_db = sanitize_gain(value);
        } else if id == PARAM_MANUAL_MODE {
            self.manual_mode = single::to_bool(value);
        }
    }

    /// Read the plain value of a known parameter.
    pub fn get_param(&self, id: u32) -> (result: Option<u32>)
        ensures
            result == param_of(self@, id),
    {
        if id == PARAM_TARGET_DB {
            Some(self.target_db())
        } else if id == PARAM_MATCH {
            Some(single::from_bool(self.match_request))
        } else if id == PARAM_LOCKED_GAIN_DB {
            Some(self.locked_gain_db())
        } else if id == PARAM_RMS_MODE {
            Some(single::from_bool(self.rms_mode))
        } else if id == PARAM_MANUAL_GAIN_DB {
            Some(self.manual_gain_db())
        } else if id == PARAM_MANUAL_MODE {
            Some(single::from_bool(self.manual_mode))
        } else {
            None
        }
    }
}

/// Whether every level is a finite number inside its range.
pub open spec fn in_range(controls: Controls) -> bool {
    &&& single::finite(controls.target_db)
    &&& single::at_most(TARGET_MIN_DB, controls.target_db)
    &&& single::at_most(controls.target_db, TARGET_MAX_DB)
    &&& gain_bounded(controls.locked_gain_db)
    &&& gain_bounded(controls.manual_gain_db)
}

/// Whether a gain correction is a finite number inside its range.
pub open spec fn gain_bounded(gain_db: u32) -> bool {
    &&& single::finite(gain_db)
    &&& single::at_most(GAIN_MIN_DB, gain_db)
    &&& single::at_most(gain_db, GAIN_MAX_DB)
}

/// Every store holds levels inside their ranges.
pub proof fn stored_levels_are_in_range(params: GainSnapParams)
    ensures
        in_range(params@),
{
    single::sanitizing_settles(params.target_db, TARGET_MIN_DB, TARGET_MAX_DB, DEFAULT_TARGET_DB);
    single::sanitizing_settles(
        params.locked_gain_db,
        GAIN_MIN_DB,
        GAIN_MAX_DB,
        DEFAULT_LOCKED_GAIN_DB,
    );
    single::sanitizing_settles(
        params.manual_gain_db,
        GAIN_MIN_DB,
        GAIN_MAX_DB,
        DEFAULT_LOCKED_GAIN_DB,
    );
}

/// Storing any value keeps every level inside its range.
pub proof fn storing_keeps_levels_in_range(controls: Controls, id: u32, value: u32)
    requires
        in_range(controls),
    ensures
        in_range(with_param(controls, id, value)),
{
    single::sanitizing_settles(value, TARGET_MIN_DB, TARGET_MAX_DB, DEFAULT_TARGET_DB);
    single::sanitizing_settles(value, GAIN_MIN_DB, GAIN_MAX_DB, DEFAULT_LOCKED_GAIN_DB);
}

/// Storing what was read changes nothing.
pub proof fn storing_what_was_read_changes_nothing(controls: Controls, id: u32)
    requires
        in_range(controls),
        param_of(controls, id) is Some,
    ensures
        with_param(controls, id, param_of(controls, id)->0) == controls,
{
}

/// What is read after storing depends on the value stored last for that
/// parameter alone, and storing one parameter leaves the others as they were.
pub proof fn last_stored_value_is_read(
    controls: Controls,
    id: u32,
    first: u32,
    last: u32,
    other: u32,
)
    ensures
        with_param(with_param(controls, id, first), id, last) == with_param(controls, id, last),
        other != id ==> param_of(with_param(controls, id, last), other) == param_of(
            controls,
            other,
        ),
        param_of(controls, id) is Some ==> param_of(with_param(controls, id, last), id) is Some,
{
}

/// The words that are shown for Match and for the mode read back as the flag
/// that they show.
pub proof fn shown_words_read_back(id: u32, value: u64, narrowed: u32, number: Option<u32>)
    requires
        id == PARAM_MATCH || id == PARAM_RMS_MODE,
    ensures
        match shown(id, value, narrowed) {
            Some(ValueText::Word(word)) => entered_value(id, word@, number) == Some(
                single::flag(double::at_most(double::HALF, value)),
            ),
            _ => false,
        },
{
    reveal_strlit("Ready");
    reveal_strlit("ready");
    reveal_strlit("Off");
    reveal_strlit("off");
    reveal_strlit("on");
    reveal_strlit("1");
    reveal_strlit("0");
    reveal_strlit("RMS");
    reveal_strlit("rms");
    reveal_strlit("PEAK");
    reveal_strlit("peak");
    assert(text::trimmed("Ready"@) == "Ready"@);
    assert(text::trimmed("Off"@) == "Off"@);
    assert(text::trimmed("RMS"@) == "RMS"@);
    assert(text::trimmed("PEAK"@) == "PEAK"@);
}

/// A level that is shown as digits, a blank and the unit reads back as its
/// digits, and what the digits read as is the value, brought into the range of
/// the parameter: only the rounding of the digits is lost.
pub proof fn shown_levels_read_back(id: u32, digits: Seq<char>, number: u32)
    requires
        id == PARAM_TARGET_DB || id == PARAM_LOCKED_GAIN_DB,
        digits.len() > 0,
        !text::white_space(digits[0]),
        !text::white_space(digits.last()),
        digits.last() != 'B',
        single::finite(number),
    ensures
        number_part(digits + " dB"@) == digits,
        entered_value(id, digits + " dB"@, Some(number)) == Some(
            if id == PARAM_TARGET_DB {
                target_in_range(number)
            } else {
                gain_in_range(number)
            },
        ),
        id == PARAM_TARGET_DB && single::at_most(TARGET_MIN_DB, number) && single::at_most(
            number,
            TARGET_MAX_DB,
        ) ==> target_in_range(number) == number,
        id == PARAM_LOCKED_GAIN_DB && gain_bounded(number) ==> gain_in_range(number) == number,
{
    reveal_strlit(" dB");
    reveal_strlit("dB");
    let unit = "dB"@;
    let entered = digits + " dB"@;
    let spaced = digits.push(' ');
    assert(entered[0] == digits[0]);
    assert(entered.last() == 'B');
    assert(text::trimmed_start(entered) == entered);
    assert(text::trimmed(entered) == entered);
    assert(entered.skip(entered.len() - 2) =~= unit);
    assert(entered.take(entered.len() - 2) =~= spaced);
    assert(spaced.last() == ' ');
    assert(spaced.skip(spaced.len() - 2).last() == ' ');
    assert(text::without_unit(spaced, unit) == spaced);
    assert(text::without_unit(entered, unit) == spaced);
    assert(text::trimmed_start(spaced) == spaced);
    assert(spaced.drop_last() =~= digits);
    assert(text::trimmed_end(digits) == digits);
    assert(text::trimmed_end(spaced) == text::trimmed_end(spaced.drop_last()));
}

/// Conversions between plain and normalized values know exactly the parameters
/// offered to hosts. A plain value beyond an end of its range converts as that
/// end, and what is inside its range passes as it is: a round trip loses only
/// what the product and the quotient of the caller lose.
pub proof fn conversions_stay_inside_the_range(id: u32, value: u64, share: u64)
    ensures
        exposed_as(id) is Some <==> PARAM_TARGET_DB <= id <= PARAM_RMS_MODE,
        match exposed_as(id) {
            Some(def) => {
                &&& double::below(def.min, def.max)
                &&& double::below(value, def.min) ==> double::clamped(value, def.min, def.max)
                    == def.min
                &&& double::below(def.max, value) ==> double::clamped(value, def.min, def.max)
                    == def.max
                &&& double::at_most(def.min, value) && double::at_most(value, def.max)
                    ==> double::clamped(value, def.min, def.max) == value
            },
            None => true,
        },
        double::at_most(double::ZERO, share) && double::at_most(share, double::ONE)
            ==> double::clamped(share, double::ZERO, double::ONE) == share,
        !double::nan(share) ==> double::at_most(
            double::ZERO,
            double::clamped(share, double::ZERO, double::ONE),
        ) && double::at_most(double::clamped(share, double::ZERO, double::ONE), double::ONE),
{
}

/// A target between -36 dBFS and 0 dBFS, and a gain between -36 dB and +120 dB,
/// are kept as they are; any other finite number goes to the nearer end, and
/// what is not finite to -12 dBFS and 0 dB.
pub proof fn levels_are_kept_inside_their_range(value: u32)
    ensures
        single::at_most(0xc210_0000, value) && single::at_most(value, 0) ==> target_in_range(value)
            == value,
        single::finite(value) && single::below(value, 0xc210_0000) ==> target_in_range(value)
            == 0xc210_0000,
        single::finite(value) && single::below(0, value) ==> target_in_range(value) == 0,
        !single::finite(value) ==> target_in_range(value) == 0xc140_0000,
        single::at_most(0xc210_0000, value) && single::at_most(value, 0x42f0_0000) ==> gain_in_range(
            value,
        ) == value,
        single::finite(value) && single::below(value, 0xc210_0000) ==> gain_in_range(value)
            == 0xc210_0000,
        single::finite(value) && single::below(0x42f0_0000, value) ==> gain_in_range(value)
            == 0x42f0_0000,
        !single::finite(value) ==> gain_in_range(value) == 0,
{
}

/// Every parameter is stored in its own place: a level inside its range, a flag
/// as on from 0.5. An unknown identifier stores nothing.
pub proof fn values_are_stored_in_their_place(controls: Controls, id: u32, value: u32)
    ensures
        with_param(controls, 1, value) == (Controls {
            target_db: target_in_range(value),
            ..controls
        }),
        with_param(controls, 2, value) == (Controls {
            match_requested: 0x3f00_0000 <= value < 0x7f80_0000,
            ..controls
        }),
        with_param(controls, 3, value) == (Controls {
            locked_gain_db: gain_in_range(value),
            ..controls
        }),
        with_param(controls, 4, value) == (Controls {
            rms_mode: 0x3f00_0000 <= value < 0x7f80_0000,
            ..controls
        }),
        with_param(controls, 5, value) == (Controls {
            manual_gain_db: gain_in_range(value),
            ..controls
        }),
        with_param(controls, 6, value) == (Controls {
            manual_mode: 0x3f00_0000 <= value < 0x7f80_0000,
            ..controls
        }),
        !(1 <= id <= 6) ==> with_param(controls, id, value) == controls,
{
}

/// Every parameter is read from its own place, a flag as 1.0 or 0.0.
pub proof fn values_are_read_from_their_place(controls: Controls, id: u32)
    ensures
        param_of(controls, 1) == Some(controls.target_db),
        param_of(controls, 2) == Some(
            if controls.match_requested {
                0x3f80_0000u32
            } else {
                0u32
            },
        ),
        param_of(controls, 3) == Some(controls.locked_gain_db),
        param_of(controls, 4) == Some(
            if controls.rms_mode {
                0x3f80_0000u32
            } else {
                0u32
            },
        ),
        param_of(controls, 5) == Some(controls.manual_gain_db),
        param_of(controls, 6) == Some(
            if controls.manual_mode {
                0x3f80_0000u32
            } else {
                0u32
            },
        ),
        !(1 <= id <= 6) ==> param_of(controls, id) is None,
{
}

/// A new store asks for nothing: -12 dBFS, 0 dB, Peak mode, Match off.
pub proof fn new_stores_ask_for_nothing()
    ensures
        initial_controls().target_db == 0xc140_0000,
        initial_controls().locked_gain_db == 0,
        initial_controls().manual_gain_db == 0,
        !initial_controls().match_requested,
        !initial_controls().rms_mode,
        !initial_controls().manual_mode,
        !initial_controls().has_match_result,
        initial_controls().restart_generation == 0,
        in_range(initial_controls()),
{
}

/// Hosts are offered four parameters under stable identifiers: target, Match,
/// gain and mode. Each offers as its default what a new store holds, and as its
/// range what is stored; the gain is shown, but not automated, and the two flags
/// are stepped.
pub proof fn hosts_are_offered_stable_parameters(id: u32, index: int)
    ensures
        exposed_index(id) == (if 1 <= id <= 4 {
            Some(id - 1)
        } else {
            None
        }),
        exposed_as(id) is Some <==> 1 <= id <= 4,
        1 <= id <= 4 ==> exposed_as(id)->0.id == id && exposed_as(id) == exposed(id - 1),
        exposed(index) is Some <==> 0 <= index < 4,
        0 <= index < 4 ==> exposed(index)->0.id == index + 1,
        exposed(0)->0.min == 0xc042_0000_0000_0000,
        exposed(0)->0.max == 0,
        exposed(0)->0.default == 0xc028_0000_0000_0000,
        exposed(0)->0.automatable && !exposed(0)->0.stepped,
        exposed(1)->0.min == 0,
        exposed(1)->0.max == 0x3ff0_0000_0000_0000,
        exposed(1)->0.default == 0,
        exposed(1)->0.automatable && exposed(1)->0.stepped,
        exposed(2)->0.min == 0xc042_0000_0000_0000,
        exposed(2)->0.max == 0x405e_0000_0000_0000,
        exposed(2)->0.default == 0,
        !exposed(2)->0.automatable && !exposed(2)->0.stepped,
        exposed(3)->0.min == 0,
        exposed(3)->0.max == 0x3ff0_0000_0000_0000,
        exposed(3)->0.default == 0,
        exposed(3)->0.automatable && exposed(3)->0.stepped,
        vst3_info(index) is Some <==> 0 <= index < 4,
        0 <= index < 4 ==> {
            let info = vst3_info(index)->0;
            let def = exposed(index)->0;
            &&& info.id == def.id
            &&& info.title == def.name
            &&& info.automatable == def.automatable
            &&& info.step_count == (if def.stepped {
                1
            } else {
                0int
            })
        },
        vst3_info(0)->0.default_normalized == 0x3fe5_5555_5555_5555,
        vst3_info(1)->0.default_normalized == 0,
        vst3_info(2)->0.default_normalized == 0x3fcd_89d8_9d89_d89e,
        vst3_info(3)->0.default_normalized == 0,
{
}

/// A level is shown as it would be stored, and a flag by a word: one from 0.5
/// on, the other for everything else.
pub proof fn values_are_shown_as_they_are_stored(value: u64, narrowed: u32, id: u32)
    ensures
        shown(1, value, narrowed) == Some(ValueText::Level(target_in_range(narrowed))),
        shown(3, value, narrowed) == Some(ValueText::Gain(gain_in_range(narrowed))),
        ({
            let on = 0x3fe0_0000_0000_0000 <= value <= 0x7ff0_0000_0000_0000;
            &&& shown(2, value, narrowed) == Some(
                ValueText::Word(
                    if on {
                        "Ready"
                    } else {
                        "Off"
                    },
                ),
            )
            &&& shown(4, value, narrowed) == Some(
                ValueText::Word(
                    if on {
                        "RMS"
                    } else {
                        "PEAK"
                    },
                ),
            )
        }),
        !(1 <= id <= 4) ==> shown(id, value, narrowed) is None,
{
}

/// An entered level counts as far as it reads as a finite number, and is then
/// what would be stored; an entered flag counts by its word alone. White space
/// around a text, and the case of its letters, make no difference to a word.
pub proof fn entered_texts_count_by_number_or_word(
    id: u32,
    entered: Seq<char>,
    number: Option<u32>,
    other: Option<u32>,
)
    ensures
        ({
            let word = text::trimmed(entered);
            let finite = number is Some && single::finite(number->0);
            &&& entered_value(1, entered, number) == (if finite {
                Some(target_in_range(number->0))
            } else {
                None
            })
            &&& entered_value(3, entered, number) == (if finite {
                Some(gain_in_range(number->0))
            } else {
                None
            })
            &&& entered_value(2, entered, number) == Some(0x3f80_0000u32) <==> text::same_word(
                word,
                "ready"@,
            ) || text::same_word(word, "on"@) || word == "1"@
            &&& entered_value(4, entered, number) == Some(0x3f80_0000u32) <==> text::same_word(
                word,
                "rms"@,
            ) || word == "1"@
            &&& entered_value(2, entered, number) == Some(0u32) <==> text::same_word(word, "off"@)
                || word == "0"@
            &&& entered_value(4, entered, number) == Some(0u32) <==> text::same_word(word, "peak"@)
                || word == "0"@
            &&& id == 2 || id == 4 ==> {
                let value = entered_value(id, entered, number);
                &&& value is None || value == Some(0u32) || value == Some(0x3f80_0000u32)
                &&& value == entered_value(id, entered, other)
                &&& value == entered_value(id, word, number)
            }
            &&& !(1 <= id <= 4) ==> entered_value(id, entered, number) is None
        }),
{
    text::trimming_settles(entered);
    reveal_strlit("ready");
    reveal_strlit("off");
    reveal_strlit("on");
    reveal_strlit("1");
    reveal_strlit("0");
    reveal_strlit("rms");
    reveal_strlit("peak");
    let word = text::trimmed(entered);
    if word.len() > 0 {
        assert(text::same_word(word, "ready"@) ==> text::lower(word[0]) == text::lower("ready"@[0]));
        assert(text::same_word(word, "on"@) ==> text::lower(word[1]) == text::lower("on"@[1]));
        assert(text::same_word(word, "off"@) ==> text::lower(word[0]) == text::lower("off"@[0]));
        assert(text::same_word(word, "rms"@) ==> text::lower(word[0]) == text::lower("rms"@[0]));
        assert(text::same_word(word, "peak"@) ==> text::lower(word[0]) == text::lower("peak"@[0]));
    }
}

/// The number in an entered level is what is left of it without the white space
/// around it, without any units behind it, and without the white space between.
pub proof fn entered_numbers_stand_before_their_unit(entered: Seq<char>)
    ensures
        number_part(text::trimmed(entered)) == number_part(entered),
        ({
            let word = text::trimmed(entered);
            let kept = text::without_unit(word, seq!['d', 'B']);
            number_part(entered) == text::trimmed(kept)
        }),
{
    reveal_strlit("dB");
    assert("dB"@ =~= seq!['d', 'B']);
    text::trimming_settles(entered);
}

} // verus!
