//! Metering and matcher status handed from the audio side to the editor.
use vstd::prelude::*;

use crate::params::{gain_in_range, sanitize_gain};
use crate::single;

verus! {

/// Lowest level that is reported: -120 dB.
pub const SILENT_DB: u32 = 0xc2f0_0000;

/// Highest level that is reported: +24 dB.
pub const LOUDEST_DB: u32 = 0x41c0_0000;

/// Where the matcher stands between two switches of Match.
#[derive(Clone, Copy, Debug, PartialEq, Eq, Structural)]
pub enum MatchState {
    /// Match is off and nothing was measured.
    Ready,
    /// Match is on.
    Measuring,
    /// Match was switched off with a gain to hold.
    Locked,
    /// Match was switched off before a usable signal was measured.
    NoSignal,
}

/// What the matcher is doing, for display.
#[derive(Clone, Copy, Debug, PartialEq, Eq, Structural)]
pub enum MatchActivity {
    /// Match is off and nothing is held.
    Ready,
    /// No usable signal is available.
    NoSignal,
    /// Match is off and the last gain is held.
    Held,
    /// Match is on and waits for usable evidence.
    Listening,
    /// Match is on and a correction is settling.
    Adjusting,
    /// Match is on and the correction has settled.
    Matched,
}

impl MatchActivity {
    /// The code that stands for the activity.
    pub open spec fn code(self) -> u32 {
        match self {
            MatchActivity::Ready => 0,
            MatchActivity::NoSignal => 1,
            MatchActivity::Held => 2,
            MatchActivity::Listening => 3,
            MatchActivity::Adjusting => 4,
            MatchActivity::Matched => 5,
        }
    }

    /// The activity that a code stands for; every unknown code reads as Ready.
    pub open spec fn of_code(value: u32) -> MatchActivity {
        match value {
            1 => MatchActivity::NoSignal,
            2 => MatchActivity::Held,
            3 => MatchActivity::Listening,
            4 => MatchActivity::Adjusting,
            5 => MatchActivity::Matched,
            _ => MatchActivity::Ready,
        }
    }

    /// The activity shown where only the state is known.
    pub open spec fn of_state(state: MatchState) -> MatchActivity {
        match state {
            MatchState::Ready => MatchActivity::Ready,
            MatchState::Measuring => MatchActivity::Listening,
            MatchState::Locked => MatchActivity::Held,
            MatchState::NoSignal => MatchActivity::NoSignal,
        }
    }

    /// Compute [`MatchActivity::of_state`].
    pub fn from_match_state(state: MatchState) -> (result: MatchActivity)
        ensures
            result == MatchActivity::of_state(state),
    {
        match state {
            MatchState::Ready => MatchActivity::Ready,
            MatchState::Measuring => MatchActivity::Listening,
            MatchState::Locked => MatchActivity::Held,
            MatchState::NoSignal => MatchActivity::NoSignal,
        }
    }

    /// Compute [`MatchActivity::of_code`].
    pub fn from_raw(value: u32) -> (result: MatchActivity)
        ensures
            result == MatchActivity::of_code(value),
    {
        match value {
            1 => MatchActivity::NoSignal,
            2 => MatchActivity::Held,
            3 => MatchActivity::Listening,
            4 => MatchActivity::Adjusting,
            5 => MatchActivity::Matched,
            _ => MatchActivity::Ready,
        }
    }

    /// Compute [`MatchActivity::code`].
    pub fn to_raw(&self) -> (result: u32)
        ensures
            result == self.code(),
    {
        match self {
            MatchActivity::Ready => 0,
            MatchActivity::NoSignal => 1,
            MatchActivity::Held => 2,
            MatchActivity::Listening => 3,
            MatchActivity::Adjusting => 4,
            MatchActivity::Matched => 5,
        }
    }
}

impl MatchState {
    /// The code that stands for the state.
    pub open spec fn code(self) -> u32 {
        match self {
            MatchState::Ready => 0,
            MatchState::Measuring => 1,
            MatchState::Locked => 2,
            MatchState::NoSignal => 3,
        }
    }

    /// The state that a code stands for; every unknown code reads as Ready.
    pub open spec fn of_code(value: u32) -> MatchState {
        match value {
            1 => MatchState::Measuring,
            2 => MatchState::Locked,
            3 => MatchState::NoSignal,
            _ => MatchState::Ready,
        }
    }

    /// Compute [`MatchState::of_code`].
    pub fn from_raw(value: u32) -> (result: MatchState)
        ensures
            result == MatchState::of_code(value),
    {
        match value {
            1 => MatchState::Measuring,
            2 => MatchState::Locked,
            3 => MatchState::NoSignal,
            _ => MatchState::Ready,
        }
    }

    /// Compute [`MatchState::code`].
    pub fn to_raw(&self) -> (result: u32)
        ensures
            result == self.code(),
    {
        match self {
            MatchState::Ready => 0,
            MatchState::Measuring => 1,
            MatchState::Locked => 2,
            MatchState::NoSignal => 3,
        }
    }
}

/// A level as it is reported: bounded, with silence for what is not finite.
pub open spec fn reported_db(value: u32) -> u32 {
    single::sanitized(value, SILENT_DB, LOUDEST_DB, SILENT_DB)
}

/// Compute [`reported_db`].
pub fn sanitize_db(value: u32) -> (result: u32)
    ensures
        result == reported_db(value),
{
    single::sanitize(value, SILENT_DB, LOUDEST_DB, SILENT_DB)
}

/// One published status.
#[derive(Clone, Copy, Debug, PartialEq, Eq, Structural)]
pub struct Readings {
    /// Highest input peak of the last block in dBFS.
    pub input_peak_db: u32,
    /// Highest output peak of the last block in dBFS.
    pub output_peak_db: u32,
    /// Output RMS in dBFS.
    pub output_rms_db: u32,
    /// Held gain in dB.
    pub locked_gain_db: u32,
    /// Measurement progress from 0.0 to 1.0.
    pub progress: u32,
    /// Matcher state.
    pub state: MatchState,
    /// Matcher activity.
    pub activity: MatchActivity,
}

/// The status of a quiet, ready instance.
pub open spec fn initial_readings() -> Readings {
    Readings {
        input_peak_db: SILENT_DB,
        output_peak_db: SILENT_DB,
        output_rms_db: SILENT_DB,
        locked_gain_db: single::ZERO,
        progress: single::ZERO,
        state: MatchState::Ready,
        activity: MatchActivity::Ready,
    }
}

/// The status store shared with the editor.
#[derive(Clone, Copy, Debug)]
pub struct GuiStatus {
    input_peak_db: u32,
    output_peak_db: u32,
    output_rms_db: u32,
    locked_gain_db: u32,
    progress: u32,
    state: u32,
    activity: u32,
}

impl View for GuiStatus {
    type V = Readings;

    closed spec fn view(&self) -> Readings {
        Readings {
            input_peak_db: self.input_peak_db,
            output_peak_db: self.output_peak_db,
            output_rms_db: self.output_rms_db,
            locked_gain_db: self.locked_gain_db,
            progress: single::clamped(self.progress, single::ZERO, single::ONE),
            state: MatchState::of_code(self.state),
            activity: MatchActivity::of_code(self.activity),
        }
    }
}

impl Default for GuiStatus {
    fn default() -> (result: Self)
        ensures
            result@ == initial_readings(),
    {
        GuiStatus::new()
    }
}

impl GuiStatus {
    /// Construct the status of a quiet, ready instance.
    pub fn new() -> (result: Self)
        ensures
            result@ == initial_readings(),
    {
        GuiStatus {
            input_peak_db: SILENT_DB,
            output_peak_db: SILENT_DB,
            output_rms_db: SILENT_DB,
            locked_gain_db: single::ZERO,
            progress: single::ZERO,
            state: MatchState::Ready.to_raw(),
            activity: MatchActivity::Ready.to_raw(),
        }
    }

    /// Publish the status of one audio block, with the activity that its state
    /// stands for.
    pub fn update(
        &mut self,
        input_peak_db: u32,
        output_peak_db: u32,
        locked_gain_db: u32,
        progress: u32,
        state: MatchState,
    )
        ensures
            final(self)@ == (Readings {
                input_peak_db: reported_db(input_peak_db),
                output_peak_db: reported_db(output_peak_db),
                output_rms_db: old(self)@.output_rms_db,
                locked_gain_db: gain_in_range(locked_gain_db),
                progress: single::clamped(progress, single::ZERO, single::ONE),
                state,
                activity: MatchActivity::of_state(state),
            }),
    {
        self.update_with_activity(
            input_peak_db,
            output_peak_db,
            locked_gain_db,
            progress,
            state,
            MatchActivity::from_match_state(state),
        );
    }

    /// Publish the status of one audio block with its activity.
    pub fn update_with_activity(
        &mut self,
        input_peak_db: u32,
        output_peak_db: u32,
        locked_gain_db: u32,
        progress: u32,
        state: MatchState,
        activity: MatchActivity,
    )
        ensures
            final(self)@ == (Readings {
                input_peak_db: reported_db(input_peak_db),
                output_peak_db: reported_db(output_peak_db),
                output_rms_db: old(self)@.output_rms_db,
                locked_gain_db: gain_in_range(locked_gain_db),
                progress: single::clamped(progress, single::ZERO, single::ONE),
                state,
                activity,
            }),
    {
        self.input_peak_db = sanitize_db(input_peak_db);
        self.output_peak_db = sanitize_db(output_peak_db);
        self.locked_gain_db = sanitize_gain(locked_gain_db);
        self.progress = single::clamp(progress, single::ZERO, single::ONE);
        self.state = state.to_raw();
        self.activity = activity.to_raw();
    }

    /// Publish the output RMS, leaving every other reading as it is.
    pub fn update_rms(&mut self, db: u32)
        ensures
            final(self)@ == (Readings { output_rms_db: reported_db(db), ..old(self)@ }),
    {
        self.output_rms_db = sanitize_db(db);
    }

    /// Read the output level of the selected measurement.
    pub fn output_level_db(&self, rms: bool) -> (result: u32)
        ensures
            result == (if rms {
                self@.output_rms_db
            } else {
                self@.output_peak_db
            }),
    {
        if rms {
            self.output_rms_db
        } else {
            self.output_peak_db()
        }
    }

    /// Read the input peak in dBFS.
    pub fn input_peak_db(&self) -> (result: u32)
        ensures
            result == self@.input_peak_db,
    {
        self.input_peak_db
    }

    /// Read the output peak in dBFS.
    pub fn output_peak_db(&self) -> (result: u32)
        ensures
            result == self@.output_peak_db,
    {
        self.output_peak_db
    }

    /// Read the output RMS in dBFS.
    pub fn output_rms_db(&self) -> (result: u32)
        ensures
            result == self@.output_rms_db,
    {
        self.output_rms_db
    }

    /// Read the held gain in dB.
    pub fn locked_gain_db(&self) -> (result: u32)
        ensures
            result == self@.locked_gain_db,
    {
        self.locked_gain_db
    }

    /// Read the measurement progress from 0.0 to 1.0.
    pub fn progress(&self) -> (result: u32)
        ensures
            result == self@.progress,
    {
        single::clamp(self.progress, single::ZERO, single::ONE)
    }

    /// Read the matcher state.
    pub fn state(&self) -> (result: MatchState)
        ensures
            result == self@.state,
    {
        MatchState::from_raw(self.state)
    }

    /// Read the matcher activity.
    pub fn activity(&self) -> (result: MatchActivity)
        ensures
            result == self@.activity,
    {
        MatchActivity::from_raw(self.activity)
    }
}

/// A state or an activity written as its code reads back as itself.
pub proof fn codes_read_back(state: MatchState, activity: MatchActivity)
    ensures
        MatchState::of_code(state.code()) == state,
        MatchActivity::of_code(activity.code()) == activity,
{
}

/// Every reported level is a finite number between silence and +24 dB.
pub proof fn reported_levels_are_bounded(value: u32)
    ensures
        single::finite(reported_db(value)),
        single::at_most(SILENT_DB, reported_db(value)),
        single::at_most(reported_db(value), LOUDEST_DB),
{
    single::sanitizing_settles(value, SILENT_DB, LOUDEST_DB, SILENT_DB);
}

/// A level between -120 dB and +24 dB is reported as it is, any other finite one
/// as the nearer end, and what is not finite as silence.
pub proof fn levels_are_reported_as_they_are(value: u32)
    ensures
        single::at_most(0xc2f0_0000, value) && single::at_most(value, 0x41c0_0000) ==> reported_db(
            value,
        ) == value,
        single::finite(value) && single::below(value, 0xc2f0_0000) ==> reported_db(value)
            == 0xc2f0_0000,
        single::finite(value) && single::below(0x41c0_0000, value) ==> reported_db(value)
            == 0x41c0_0000,
        !single::finite(value) ==> reported_db(value) == 0xc2f0_0000,
{
}

/// Codes are stable across versions of the editor; every unknown one reads as
/// ready.
pub proof fn codes_are_stable(code: u32)
    ensures
        MatchState::Ready.code() == 0,
        MatchState::Measuring.code() == 1,
        MatchState::Locked.code() == 2,
        MatchState::NoSignal.code() == 3,
        code > 3 ==> MatchState::of_code(code) == MatchState::Ready,
        MatchActivity::Ready.code() == 0,
        MatchActivity::NoSignal.code() == 1,
        MatchActivity::Held.code() == 2,
        MatchActivity::Listening.code() == 3,
        MatchActivity::Adjusting.code() == 4,
        MatchActivity::Matched.code() == 5,
        code > 5 ==> MatchActivity::of_code(code) == MatchActivity::Ready,
{
}

/// A state alone is shown as what it means for Match: listening exactly while it
/// measures, holding exactly while a gain is locked.
pub proof fn states_are_shown_as_activities(state: MatchState)
    ensures
        MatchActivity::of_state(state) == MatchActivity::Listening <==> state
            == MatchState::Measuring,
        MatchActivity::of_state(state) == MatchActivity::Held <==> state == MatchState::Locked,
        MatchActivity::of_state(state) == MatchActivity::NoSignal <==> state
            == MatchState::NoSignal,
        MatchActivity::of_state(state) == MatchActivity::Ready <==> state == MatchState::Ready,
{
}

/// A new status is silent, at 0 dB and ready.
pub proof fn new_statuses_are_silent()
    ensures
        initial_readings().input_peak_db == 0xc2f0_0000,
        initial_readings().output_peak_db == 0xc2f0_0000,
        initial_readings().output_rms_db == 0xc2f0_0000,
        initial_readings().locked_gain_db == 0,
        initial_readings().progress == 0,
        initial_readings().state == MatchState::Ready,
        initial_readings().activity == MatchActivity::Ready,
{
}

} // verus!
