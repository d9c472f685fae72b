//! Decisions of the plug-in format adapters: buses, block handling, and how much
//! of a host's automation is read.
use vstd::prelude::*;

use crate::double;
use crate::params::{exposed_index, param_index, GainSnapParams, PARAMETER_COUNT};
use crate::timeline::{
    after_events, applied_through_is_due_by, chronological, due_before, first_after, ParamEvent,
    ParamTimeline, Pending, PARAM_EVENT_CAPACITY,
};

verus! {

/// Direction of a bus.
#[derive(Clone, Copy, Debug, PartialEq, Eq, Structural)]
pub enum BusDirection {
    /// Into the plug-in.
    Input,
    /// Out of the plug-in.
    Output,
    /// Neither.
    Unknown,
}

/// What a host request is answered.
#[derive(Clone, Copy, Debug, PartialEq, Eq, Structural)]
pub enum Answer {
    /// Done.
    Accepted,
    /// Possible, but not what the plug-in does.
    Declined,
    /// Not a valid request.
    Invalid,
    /// Valid, but not offered.
    NotOffered,
}

/// Width of the samples that a host offers.
#[derive(Clone, Copy, Debug, PartialEq, Eq, Structural)]
pub enum SampleSize {
    /// 32 bits.
    Single,
    /// 64 bits.
    Double,
    /// Neither.
    Unknown,
}

/// Number of buses: one audio bus in each direction.
pub fn bus_count(audio: bool, direction: BusDirection) -> (result: i32)
    ensures
        result == (if audio && direction != BusDirection::Unknown {
            1int
        } else {
            0int
        }),
{
    if !audio {
        return 0;
    }
    match direction {
        BusDirection::Input | BusDirection::Output => 1,
        BusDirection::Unknown => 0,
    }
}

/// Whether a request names one of the two audio buses.
pub open spec fn names_a_bus(audio: bool, direction: BusDirection, index: i32) -> bool {
    audio && index == 0 && direction != BusDirection::Unknown
}

/// Label of a bus.
pub fn bus_label(audio: bool, direction: BusDirection, index: i32) -> (result: Option<&'static str>)
    ensures
        result is Some <==> names_a_bus(audio, direction, index),
        result is Some ==> result->0@ == (if direction == BusDirection::Input {
            "Input"@
        } else {
            "Output"@
        }),
{
    if index != 0 || !audio {
        return None;
    }
    match direction {
        BusDirection::Input => Some("Input"),
        BusDirection::Output => Some("Output"),
        BusDirection::Unknown => None,
    }
}

/// Answer a request to activate a bus.
pub fn activate_bus(audio: bool, direction: BusDirection, index: i32) -> (result: Answer)
    ensures
        result == (if names_a_bus(audio, direction, index) {
            Answer::Accepted
        } else {
            Answer::Invalid
        }),
{
    if !audio || index != 0 {
        return Answer::Invalid;
    }
    match direction {
        BusDirection::Input | BusDirection::Output => Answer::Accepted,
        BusDirection::Unknown => Answer::Invalid,
    }
}

/// Answer a proposed arrangement; `stereo` says that both lists could be read
/// and hold the stereo arrangement.
pub fn set_bus_arrangements(input_count: i32, output_count: i32, stereo: bool) -> (result: Answer)
    ensures
        result == (if input_count == 1 && output_count == 1 && stereo {
            Answer::Accepted
        } else {
            Answer::Declined
        }),
{
    if input_count != 1 || output_count != 1 {
        return Answer::Declined;
    }
    if stereo {
        Answer::Accepted
    } else {
        Answer::Declined
    }
}

/// Answer whether a sample size can be processed.
pub fn can_process_sample_size(size: SampleSize) -> (result: Answer)
    ensures
        result == (match size {
            SampleSize::Single => Answer::Accepted,
            SampleSize::Double => Answer::NotOffered,
            SampleSize::Unknown => Answer::Invalid,
        }),
{
    match size {
        SampleSize::Single => Answer::Accepted,
        SampleSize::Double => Answer::NotOffered,
        SampleSize::Unknown => Answer::Invalid,
    }
}

/// Answer a processing setup: the sample rate has to be a positive number.
pub fn setup_processing(sample_rate: u64) -> (result: Answer)
    ensures
        result == (if double::finite(sample_rate) && double::below(double::ZERO, sample_rate) {
            Answer::Accepted
        } else {
            Answer::Invalid
        }),
        result == Answer::Accepted <==> 0 < sample_rate < 0x7ff0_0000_0000_0000,
        result == Answer::Accepted || result == Answer::Invalid,
{
    if !double::is_finite(sample_rate) || double::less_or_equal(sample_rate, double::ZERO) {
        Answer::Invalid
    } else {
        Answer::Accepted
    }
}

/// How a block is handled.
#[derive(Clone, Copy, Debug, PartialEq, Eq, Structural)]
pub enum BlockPlan {
    /// Refuse the block.
    Refuse,
    /// Answer that the block is done, and touch nothing.
    Skip,
    /// Silence the output, and touch nothing else.
    Silence,
    /// Take the parameter events, and nothing more.
    TakeEvents,
    /// Take the parameter events, then silence the output.
    TakeEventsAndSilence,
    /// Take the parameter events, and process the samples where the buffers
    /// allow it.
    Process,
}

/// Plan a block. A negative length is refused; while another call owns the
/// engine the output is only silenced; events are taken even where there are no
/// samples that can be processed.
pub fn plan_block(sample_count: i32, acquired: bool, size: SampleSize) -> (result: BlockPlan)
    ensures
        result == (if sample_count < 0 {
            BlockPlan::Refuse
        } else if !acquired {
            if sample_count == 0 {
                BlockPlan::Skip
            } else {
                BlockPlan::Silence
            }
        } else if sample_count == 0 {
            BlockPlan::TakeEvents
        } else if size == SampleSize::Single {
            BlockPlan::Process
        } else {
            BlockPlan::TakeEventsAndSilence
        }),
        result == BlockPlan::Refuse <==> sample_count < 0,
        result == BlockPlan::Process || result == BlockPlan::TakeEvents || result
            == BlockPlan::TakeEventsAndSilence <==> sample_count >= 0 && acquired,
        result == BlockPlan::Process <==> sample_count > 0 && acquired && size
            == SampleSize::Single,
        result == BlockPlan::Silence || result == BlockPlan::TakeEventsAndSilence <==> sample_count
            > 0 && !(acquired && size == SampleSize::Single),
{
    if sample_count < 0 {
        return BlockPlan::Refuse;
    }
    if !acquired {
        return if sample_count == 0 {
            BlockPlan::Skip
        } else {
            BlockPlan::Silence
        };
    }
    if sample_count == 0 {
        return BlockPlan::TakeEvents;
    }
    match size {
        SampleSize::Single => BlockPlan::Process,
        _ => BlockPlan::TakeEventsAndSilence,
    }
}

/// Silence flags of a processed block: a fully silent input keeps the host's
/// annotation, anything else clears it.
pub fn output_silence_flags(input_flags: u64) -> (result: u64)
    ensures
        result == (if input_flags == 3 {
            3u64
        } else {
            0u64
        }),
        result == 3 <==> input_flags == 3,
        result == 3 || result == 0,
{
    if input_flags == 3 {
        3
    } else {
        0
    }
}

/// The number that a host reported, with nothing for a negative one.
pub open spec fn reported(count: i32) -> int {
    if count < 0 {
        0
    } else {
        count as int
    }
}

/// Number of parameter queues to read, of those that a host reports.
pub fn queue_count(count: i32) -> (result: usize)
    ensures
        result == (if reported(count) < PARAMETER_COUNT {
            reported(count)
        } else {
            PARAMETER_COUNT as int
        }),
        count <= 0 ==> result == 0,
        0 <= count <= 4 ==> result == count,
        count > 4 ==> result == 4,
{
    if count <= 0 {
        0
    } else if (count as usize) < PARAMETER_COUNT {
        count as usize
    } else {
        PARAMETER_COUNT
    }
}

/// Which points of one parameter queue are read.
#[derive(Clone, Copy, Debug, PartialEq, Eq, Structural)]
pub struct QueuePlan {
    /// How many points are read from the start.
    pub prefix: usize,
    /// The last point, where the prefix ends before it.
    pub last: Option<usize>,
}

/// Which points of a queue are read with a number of points left to read.
pub open spec fn queue_points(points: int, remaining: int) -> QueuePlan {
    if points <= remaining {
        QueuePlan { prefix: points as usize, last: None }
    } else {
        QueuePlan { prefix: remaining as usize, last: Some((points - 1) as usize) }
    }
}

/// How many points of a host's automation may still be read in one block.
#[derive(Clone, Copy, Debug)]
pub struct PointBudget {
    remaining: usize,
}

impl View for PointBudget {
    type V = int;

    closed spec fn view(&self) -> int {
        self.remaining as int
    }
}

impl PointBudget {
    /// The budget of a block: as many points as a timeline retains.
    pub fn new() -> (result: Self)
        ensures
            result@ == PARAM_EVENT_CAPACITY,
    {
        PointBudget { remaining: PARAM_EVENT_CAPACITY }
    }

    /// Plan the reading of one queue: a prefix inside the budget, and the final
    /// point whatever the budget.
    pub fn plan_queue(&mut self, point_count: i32) -> (result: QueuePlan)
        requires
            0 <= old(self)@,
        ensures
            result == queue_points(reported(point_count), old(self)@),
            final(self)@ == old(self)@ - result.prefix,
            0 <= final(self)@,
    {
        let points: usize = if point_count < 0 {
            0
        } else {
            point_count as usize
        };
        if points <= self.remaining {
            self.remaining = self.remaining - points;
            QueuePlan { prefix: points, last: None }
        } else {
            let prefix: usize = self.remaining;
            self.remaining = 0;
            QueuePlan { prefix, last: Some(points - 1) }
        }
    }
}

/// The points read in full prefixes of a run of queues.
pub open spec fn prefix_points(points: Seq<int>, budget: int) -> int
    decreases points.len(),
{
    if points.len() == 0 {
        0
    } else {
        let before = prefix_points(points.drop_last(), budget);
        before + queue_points(points.last(), budget - before).prefix
    }
}

/// Reading is bounded: over any queues the prefixes together stay inside the
/// budget.
pub proof fn reading_stays_inside_the_budget(points: Seq<int>, budget: int)
    requires
        0 <= budget <= usize::MAX,
        forall|i: int| 0 <= i < points.len() ==> 0 <= #[trigger] points[i] <= i32::MAX,
    ensures
        0 <= prefix_points(points, budget) <= budget,
    decreases points.len(),
{
    if points.len() > 0 {
        let shorter = points.drop_last();
        assert forall|i: int| 0 <= i < shorter.len() implies 0 <= #[trigger] shorter[i] <= i32::MAX by {
            assert(shorter[i] == points[i]);
        }
        reading_stays_inside_the_budget(shorter, budget);
        assert(points.last() == points[points.len() - 1]);
    }
}

/// No queue loses its final point: it is either the end of the prefix, or read
/// on its own.
pub proof fn every_queue_ends_on_its_final_point(points: int, remaining: int)
    requires
        0 < points <= i32::MAX,
        0 <= remaining <= usize::MAX,
    ensures
        queue_points(points, remaining).prefix == points || queue_points(points, remaining).last
            == Some((points - 1) as usize),
{
}

/// Accept a CLAP event as a parameter event: one that carries a value for a
/// parameter offered to hosts.
pub fn classify_clap_parameter(carries_value: bool, param_id: Option<u32>, value: u32) -> (result:
    Option<ParamEvent>)
    ensures
        result is Some <==> carries_value && param_id is Some && exposed_index(param_id->0) is Some,
        result is Some ==> result->0 == (ParamEvent {
            offset: 0,
            sequence: 0,
            param_id: param_id->0,
            value,
        }),
        result is Some <==> carries_value && param_id is Some && 1 <= param_id->0 <= 4,
{
    if !carries_value {
        return None;
    }
    match param_id {
        Some(param_id) => {
            if param_index(param_id).is_some() {
                Some(ParamEvent { offset: 0, sequence: 0, param_id, value })
            } else {
                None
            }
        },
        None => None,
    }
}

/// The place of a CLAP parameter among the overflow slots.
pub fn clap_parameter_index(param_id: u32) -> (result: Option<usize>)
    ensures
        result is Some <==> exposed_index(param_id) is Some,
        result is Some ==> result->0 == exposed_index(param_id)->0,
{
    param_index(param_id)
}

/// Progress of rendering through one block.
#[derive(Clone, Copy, Debug)]
pub struct RenderCursor {
    frames: usize,
    position: usize,
}

/// Where a cursor stands: frames rendered, of the frames in the block.
#[derive(Clone, Copy, Debug, PartialEq, Eq, Structural)]
pub struct Progress {
    /// Frames rendered.
    pub position: usize,
    /// Frames in the block.
    pub frames: usize,
}

impl View for RenderCursor {
    type V = Progress;

    closed spec fn view(&self) -> Progress {
        Progress { position: self.position, frames: self.frames }
    }
}

/// Where rendering up to an offset ends.
pub open spec fn render_end(progress: Progress, offset: usize) -> usize {
    if offset <= progress.position {
        progress.position
    } else if offset < progress.frames {
        offset
    } else {
        progress.frames
    }
}

impl RenderCursor {
    /// Start at the first frame of a block.
    pub fn new(frames: usize) -> (result: Self)
        ensures
            result@ == (Progress { position: 0, frames }),
    {
        RenderCursor { frames, position: 0 }
    }

    /// The stretch of frames to render before events at an offset are applied.
    pub fn render_until(&mut self, offset: usize) -> (result: (usize, usize))
        requires
            old(self)@.position <= old(self)@.frames,
        ensures
            result.0 == old(self)@.position,
            result.1 == render_end(old(self)@, offset),
            final(self)@ == (Progress { position: result.1, ..old(self)@ }),
    {
        let start: usize = self.position;
        let end: usize = if offset < self.frames {
            offset
        } else {
            self.frames
        };
        if end > start {
            self.position = end;
        }
        (start, self.position)
    }

    /// The stretch of frames that is left.
    pub fn render_rest(&mut self) -> (result: (usize, usize))
        requires
            old(self)@.position <= old(self)@.frames,
        ensures
            result == (old(self)@.position, old(self)@.frames),
            final(self)@ == (Progress { position: old(self)@.frames, ..old(self)@ }),
    {
        let start: usize = self.position;
        self.position = self.frames;
        (start, self.position)
    }
}

/// What is to be done next in a block.
#[derive(Clone, Copy, Debug, PartialEq, Eq, Structural)]
pub enum BlockStep {
    /// Process the frames from `start` up to `end`; there may be none.
    Render {
        /// First frame.
        start: usize,
        /// The frame behind the last one.
        end: usize,
    },
    /// Events were applied: follow the controls.
    Follow,
    /// The block is done.
    Finish,
}

/// Where a run through a block stands.
#[derive(Clone, Copy, Debug, PartialEq, Eq, Structural)]
pub struct RunState {
    /// Frames rendered, and frames in the block.
    pub progress: Progress,
    /// Offset of the events that are applied next.
    pub due: Option<usize>,
    /// Whether the last frames were rendered.
    pub ended: bool,
}

/// A run through a block: frames up to the next event, the events of that
/// offset, and so on to the end of the block.
#[derive(Clone, Copy, Debug)]
pub struct BlockRun {
    cursor: RenderCursor,
    due: Option<usize>,
    ended: bool,
}

impl View for BlockRun {
    type V = RunState;

    closed spec fn view(&self) -> RunState {
        RunState { progress: self.cursor@, due: self.due, ended: self.ended }
    }
}

/// The next step of a run.
pub open spec fn next_of(run: RunState, pending: Pending) -> BlockStep {
    let start = run.progress.position;
    if run.due is Some {
        BlockStep::Follow
    } else if pending.next < pending.events.len() {
        BlockStep::Render {
            start,
            end: render_end(run.progress, pending.events[pending.next as int].offset),
        }
    } else if !run.ended {
        BlockStep::Render { start, end: run.progress.frames }
    } else {
        BlockStep::Finish
    }
}

/// The run after its next step.
pub open spec fn run_after(run: RunState, pending: Pending) -> RunState {
    match next_of(run, pending) {
        BlockStep::Follow => RunState { due: None, ..run },
        BlockStep::Render { start, end } => RunState {
            progress: Progress { position: end, ..run.progress },
            due: if pending.next < pending.events.len() {
                Some(pending.events[pending.next as int].offset)
            } else {
                None
            },
            ended: pending.next >= pending.events.len() || run.ended,
        },
        BlockStep::Finish => run,
    }
}

impl BlockRun {
    /// Start a run through a block of `frames` frames.
    pub fn new(frames: usize) -> (result: Self)
        ensures
            result@ == (RunState {
                progress: Progress { position: 0, frames },
                due: None,
                ended: false,
            }),
    {
        BlockRun { cursor: RenderCursor::new(frames), due: None, ended: false }
    }

    /// Take the next step. Events are applied here; rendering and following the
    /// controls is left to the caller.
    pub fn next_step(&mut self, timeline: &mut ParamTimeline, params: &mut GainSnapParams) -> (result:
        BlockStep)
        requires
            old(self)@.progress.position <= old(self)@.progress.frames,
            old(timeline)@.wf(),
        ensures
            final(timeline)@.wf(),
            result == next_of(old(self)@, old(timeline)@),
            final(self)@ == run_after(old(self)@, old(timeline)@),
            final(self)@.progress.position <= final(self)@.progress.frames,
            final(timeline)@ == (match old(self)@.due {
                Some(offset) => Pending {
                    next: first_after(
                        old(timeline)@.events,
                        old(timeline)@.next as int,
                        offset as int,
                    ) as nat,
                    ..old(timeline)@
                },
                None => old(timeline)@,
            }),
            final(timeline)@ == pending_after(old(self)@, old(timeline)@),
            old(self)@.due is None ==> final(params)@ == old(params)@,
            final(params)@ == after_events(
                old(params)@,
                old(timeline)@.events,
                old(timeline)@.next as int,
                final(timeline)@.next as int,
            ),
    {
        if let Some(offset) = self.due {
            self.due = None;
            timeline.apply_through(offset, params);
            return BlockStep::Follow;
        }
        match timeline.next_offset() {
            Some(offset) => {
                self.due = Some(offset);
                let (start, end): (usize, usize) = self.cursor.render_until(offset);
                BlockStep::Render { start, end }
            },
            None => {
                if self.ended {
                    return BlockStep::Finish;
                }
                self.ended = true;
                let (start, end): (usize, usize) = self.cursor.render_rest();
                BlockStep::Render { start, end }
            },
        }
    }
}

/// What holds at every step of a run: the applied events are not later than the
/// rendered frames, and the events that are due next are the first pending ones.
pub open spec fn run_in_order(run: RunState, pending: Pending) -> bool {
    &&& pending.wf()
    &&& chronological(pending.events)
    &&& run.progress.position <= run.progress.frames
    &&& forall|i: int|
        0 <= i < pending.next ==> (#[trigger] pending.events[i]).offset <= run.progress.position
            || run.progress.position == run.progress.frames
    &&& run.due matches Some(offset) ==> {
        &&& pending.next < pending.events.len()
        &&& offset == pending.events[pending.next as int].offset
        &&& offset <= run.progress.position || run.progress.position == run.progress.frames
    }
    &&& run.ended ==> run.progress.position == run.progress.frames
}

/// The timeline after a step of a run.
pub open spec fn pending_after(run: RunState, pending: Pending) -> Pending {
    match run.due {
        Some(offset) => Pending {
            next: first_after(pending.events, pending.next as int, offset as int) as nat,
            ..pending
        },
        None => pending,
    }
}

/// A run stays in order from its start to its end; every second step applies at
/// least one event; and a finished run has applied every event and rendered
/// every frame.
pub proof fn runs_stay_in_order(run: RunState, pending: Pending, frames: usize)
    requires
        run_in_order(run, pending),
    ensures
        run_in_order(run_after(run, pending), pending_after(run, pending)),
        pending.next == 0 ==> run_in_order(
            (RunState { progress: Progress { position: 0, frames }, due: None, ended: false }),
            pending,
        ),
        run.due is Some ==> pending_after(run, pending).next > pending.next,
        next_of(run, pending) is Finish ==> pending.next == pending.events.len()
            && run.progress.position == run.progress.frames,
{
    if let Some(offset) = run.due {
        applied_through_is_due_by(pending.events, pending.next as int, offset as int);
    }
}

/// A frame is rendered after every event that is due by it, and before every
/// event that is due later. So stopping at event offsets applies the same events
/// to a frame as asking for due events at every frame does.
pub proof fn a_frame_sees_exactly_the_events_due_by_it(
    run: RunState,
    pending: Pending,
    frame: int,
)
    requires
        run_in_order(run, pending),
        match next_of(run, pending) {
            BlockStep::Render { start, end } => start <= frame < end,
            _ => false,
        },
    ensures
        forall|i: int|
            0 <= i < pending.events.len() ==> (i < pending.next <==> (
            #[trigger] pending.events[i]).offset <= frame),
        first_after(pending.events, 0, frame) == pending.next,
{
    applied_through_is_due_by(pending.events, 0, frame);
    assert forall|i: int| 0 <= i < pending.events.len() implies (i < pending.next <==> (
    #[trigger] pending.events[i]).offset <= frame) by {
        if i >= pending.next {
            let next = pending.events[pending.next as int];
            assert(due_before(next, pending.events[i]));
        }
    }
    let count = first_after(pending.events, 0, frame);
    if count < pending.next {
        assert(pending.events[count].offset <= frame);
    }
    if pending.next < count {
        assert(pending.events[pending.next as int].offset <= frame);
    }
}

/// A request names a bus exactly where it is the first audio bus of a known
/// direction.
pub proof fn only_the_first_audio_bus_is_named(audio: bool, direction: BusDirection, index: i32)
    ensures
        names_a_bus(audio, direction, index) <==> audio && index == 0 && (direction
            == BusDirection::Input || direction == BusDirection::Output),
        reported(index) == (if index > 0 {
            index as int
        } else {
            0int
        }),
{
}

/// A queue is read from its start as far as the budget goes, and its last point
/// is added exactly where the budget ends before it.
pub proof fn queues_are_read_as_far_as_the_budget_goes(points: int, remaining: int)
    requires
        0 <= points <= i32::MAX,
        0 <= remaining <= PARAM_EVENT_CAPACITY,
    ensures
        ({
            let plan = queue_points(points, remaining);
            &&& points <= remaining ==> plan.prefix == points && plan.last is None
            &&& points > remaining ==> plan.prefix == remaining && plan.last is Some
                && plan.last->0 == points - 1
        }),
        PARAM_EVENT_CAPACITY == 256,
{
}

/// Rendering up to an offset never goes back, never goes beyond the block, and
/// reaches the offset in between.
pub proof fn rendering_reaches_the_offset(progress: Progress, offset: usize)
    requires
        progress.position <= progress.frames,
    ensures
        offset <= progress.position ==> render_end(progress, offset) == progress.position,
        progress.position <= offset <= progress.frames ==> render_end(progress, offset) == offset,
        offset >= progress.frames ==> render_end(progress, offset) == progress.frames,
{
}

/// A run renders stretch by stretch, each from where the last one ended, up to
/// the next pending event or to the end of the block, and applies events after
/// every stretch that one of them ended; nothing is rendered twice or left out.
pub proof fn stretches_follow_each_other(run: RunState, pending: Pending)
    requires
        run_in_order(run, pending),
    ensures
        ({
            let after = run_after(run, pending);
            let waiting = pending.next < pending.events.len();
            let offset = pending.events[pending.next as int].offset;
            &&& after.progress.frames == run.progress.frames
            &&& run.due is Some <==> next_of(run, pending) is Follow
            &&& run.due is Some ==> after.due is None && after.progress == run.progress
                && after.ended == run.ended
            &&& run.due is None && waiting ==> {
                &&& next_of(run, pending) matches BlockStep::Render { start, end }
                &&& start == run.progress.position
                &&& end == after.progress.position
                &&& start <= end
                &&& offset >= run.progress.frames ==> end == run.progress.frames
                &&& run.progress.position <= offset < run.progress.frames ==> end == offset
                &&& after.due == Some(offset)
                &&& after.ended == run.ended
            }
            &&& run.due is None && !waiting && !run.ended ==> {
                &&& next_of(run, pending) matches BlockStep::Render { start, end }
                &&& start == run.progress.position
                &&& end == run.progress.frames
                &&& after.progress.position == end
                &&& after.due is None
                &&& after.ended
            }
            &&& run.due is None && !waiting && run.ended ==> next_of(run, pending) is Finish
                && after == run
        }),
{
}

} // verus!
