//! Bounded storage for the parameter events of one process block.
use vstd::prelude::*;

use crate::params::{
    exposed_index, param_index, param_of, with_param, Controls, GainSnapParams, PARAMETER_COUNT,
};

verus! {

broadcast use vstd::seq_lib::group_to_multiset_ensures;

/// Most events that one block retains in order.
pub const PARAM_EVENT_CAPACITY: usize = 256;

/// One plain parameter value scheduled inside a block.
#[derive(Clone, Copy, Debug, PartialEq, Eq, Structural)]
pub struct ParamEvent {
    /// Sample offset from the start of the block.
    pub offset: usize,
    /// Arrival order, which decides between events of one offset.
    pub sequence: usize,
    /// Parameter identifier.
    pub param_id: u32,
    /// Plain value.
    pub value: u32,
}

/// Whether `a` is due no later than `b`.
pub open spec fn due_before(a: ParamEvent, b: ParamEvent) -> bool {
    a.offset < b.offset || (a.offset == b.offset && a.sequence <= b.sequence)
}

/// Whether events stand in the order in which they are due.
pub open spec fn chronological(events: Seq<ParamEvent>) -> bool {
    forall|i: int, j: int|
        0 <= i <= j < events.len() ==> due_before(#[trigger] events[i], #[trigger] events[j])
}

/// The index of the first event from `from` on that is due after `offset`.
pub open spec fn first_after(events: Seq<ParamEvent>, from: int, offset: int) -> int
    decreases events.len() - from,
{
    if 0 <= from < events.len() && events[from].offset <= offset {
        first_after(events, from + 1, offset)
    } else {
        from
    }
}

/// The controls after the events from `from` up to `to` were stored in turn.
pub open spec fn after_events(
    controls: Controls,
    events: Seq<ParamEvent>,
    from: int,
    to: int,
) -> Controls
    decreases to - from,
{
    if 0 <= from < to <= events.len() {
        let last = events[to - 1];
        with_param(after_events(controls, events, from, to - 1), last.param_id, last.value)
    } else {
        controls
    }
}

/// The controls after the retained overflow values up to `to` were stored.
pub open spec fn after_overflow(
    controls: Controls,
    overflow: Seq<Option<ParamEvent>>,
    to: int,
) -> Controls
    decreases to,
{
    if 0 < to <= overflow.len() {
        let before = after_overflow(controls, overflow, to - 1);
        match overflow[to - 1] {
            Some(event) => with_param(before, event.param_id, event.value),
            None => before,
        }
    } else {
        controls
    }
}

/// What a timeline holds.
pub struct Pending {
    /// Retained events.
    pub events: Seq<ParamEvent>,
    /// Per parameter, the last event that found no room.
    pub overflow: Seq<Option<ParamEvent>>,
    /// Frames of the block.
    pub frames: nat,
    /// Number of retained events that were applied.
    pub next: nat,
    /// Arrival number of the next event.
    pub sequence: nat,
}

/// The event as it is retained: its offset inside the block, its arrival number
/// set.
pub open spec fn placed(pending: Pending, offset: int, event: ParamEvent) -> ParamEvent {
    ParamEvent {
        offset: if offset <= 0 {
            0
        } else if offset < pending.frames {
            offset as usize
        } else {
            pending.frames as usize
        },
        sequence: pending.sequence as usize,
        ..event
    }
}

/// A timeline after one more event arrived.
pub open spec fn pushed(pending: Pending, offset: int, event: ParamEvent) -> Pending {
    match exposed_index(event.param_id) {
        Some(index) => {
            let retained = placed(pending, offset, event);
            Pending {
                events: if pending.events.len() < PARAM_EVENT_CAPACITY {
                    pending.events.push(retained)
                } else {
                    pending.events
                },
                overflow: if pending.events.len() < PARAM_EVENT_CAPACITY {
                    pending.overflow
                } else {
                    pending.overflow.update(index, Some(retained))
                },
                sequence: if pending.sequence < usize::MAX {
                    pending.sequence + 1
                } else {
                    pending.sequence
                },
                ..pending
            }
        },
        None => pending,
    }
}

/// Fixed-capacity timeline of the parameter events of one block.
pub struct ParamTimeline {
    events: Vec<ParamEvent>,
    overflow_final: [Option<ParamEvent>; 4],
    block_frames: usize,
    next_event: usize,
    next_sequence: usize,
}

impl View for ParamTimeline {
    type V = Pending;

    closed spec fn view(&self) -> Pending {
        Pending {
            events: self.events@,
            overflow: self.overflow_final@,
            frames: self.block_frames as nat,
            next: self.next_event as nat,
            sequence: self.next_sequence as nat,
        }
    }
}

impl Pending {
    /// The timeline's invariant: never more events than fit, none after the end
    /// of the block, every overflow slot holding its own parameter.
    pub open spec fn wf(self) -> bool {
        &&& self.events.len() <= PARAM_EVENT_CAPACITY
        &&& self.overflow.len() == PARAMETER_COUNT
        &&& self.next <= self.events.len()
        &&& self.frames <= usize::MAX
        &&& self.sequence <= usize::MAX
        &&& forall|i: int| 0 <= i < self.events.len() ==> (#[trigger] self.events[i]).offset <= self.frames
        &&& forall|i: int|
            0 <= i < self.overflow.len() ==> ((#[trigger] self.overflow[i]) matches Some(event)
                ==> exposed_index(event.param_id) == Some(i))
    }
}

/// A timeline with no events for a block of `frames` frames.
pub open spec fn empty_block(frames: nat) -> Pending {
    Pending {
        events: Seq::empty(),
        overflow: seq![None, None, None, None],
        frames,
        next: 0,
        sequence: 0,
    }
}

impl ParamTimeline {
    /// Construct all storage before audio starts.
    pub fn new() -> (result: Self)
        ensures
            result@.wf(),
            result@ == empty_block(0),
    {
        let result = ParamTimeline {
            events: Vec::with_capacity(PARAM_EVENT_CAPACITY),
            overflow_final: [None, None, None, None],
            block_frames: 0,
            next_event: 0,
            next_sequence: 0,
        };
        assert(result@.overflow =~= empty_block(0).overflow);
        result
    }

    /// Start collecting a block.
    pub fn begin_block(&mut self, block_frames: usize)
        ensures
            final(self)@.wf(),
            final(self)@ == empty_block(block_frames as nat),
    {
        self.events.clear();
        self.overflow_final = [None, None, None, None];
        self.block_frames = block_frames;
        self.next_event = 0;
        self.next_sequence = 0;
        assert(self@.overflow =~= empty_block(0).overflow);
    }

    /// Add an event without growing the storage.
    pub fn push(&mut self, offset: i64, event: ParamEvent)
        requires
            old(self)@.wf(),
        ensures
            final(self)@.wf(),
            final(self)@ == pushed(old(self)@, offset as int, event),
    {
        let index: usize = match param_index(event.param_id) {
            Some(index) => index,
            None => {
                return ;
            },
        };
        let placed_offset: usize = if offset <= 0 {
            0
        } else if (offset as u64) < self.block_frames as u64 {
            offset as usize
        } else {
            self.block_frames
        };
        let retained = ParamEvent {
            offset: placed_offset,
            sequence: self.next_sequence,
            param_id: event.param_id,
            value: event.value,
        };
        self.next_sequence = self.next_sequence.saturating_add(1);
        if self.events.len() < PARAM_EVENT_CAPACITY {
            self.events.push(retained);
        } else {
            self.overflow_final[index] = Some(retained);
        }
    }

    /// Put the retained events into chronological order.
    pub fn prepare(&mut self)
        requires
            old(self)@.wf(),
        ensures
            final(self)@.wf(),
            chronological(final(self)@.events),
            final(self)@.events.to_multiset() == old(self)@.events.to_multiset(),
            final(self)@ == (Pending { events: final(self)@.events, next: 0, ..old(self)@ }),
    {
        let ghost frames = self.block_frames;
        let length: usize = self.events.len();
        let mut sorted: usize = 0;
        while sorted < length
            invariant
                sorted <= length == self.events@.len(),
                length == old(self).events@.len(),
                forall|i: int, j: int|
                    0 <= i <= j < sorted ==> due_before(
                        #[trigger] self.events@[i],
                        #[trigger] self.events@[j],
                    ),
                self.events@.to_multiset() == old(self).events@.to_multiset(),
                forall|i: int|
                    0 <= i < length ==> (#[trigger] self.events@[i]).offset <= frames,
                self.overflow_final == old(self).overflow_final,
                self.block_frames == old(self).block_frames == frames,
                self.next_sequence == old(self).next_sequence,
            decreases length - sorted,
        {
            let mut place: usize = sorted;
            while place > 0 && Self::is_due_first(&self.events[place], &self.events[place - 1])
                invariant
                    place <= sorted < length == self.events@.len(),
                    length == old(self).events@.len(),
                    forall|i: int, j: int|
                        0 <= i <= j <= sorted && i != place && j != place ==> due_before(
                            #[trigger] self.events@[i],
                            #[trigger] self.events@[j],
                        ),
                    forall|j: int|
                        place < j <= sorted ==> due_before(
                            self.events@[place as int],
                            #[trigger] self.events@[j],
                        ),
                    self.events@.to_multiset() == old(self).events@.to_multiset(),
                    forall|i: int|
                        0 <= i < length ==> (#[trigger] self.events@[i]).offset <= frames,
                    self.overflow_final == old(self).overflow_final,
                    self.block_frames == old(self).block_frames == frames,
                    self.next_sequence == old(self).next_sequence,
                decreases place,
            {
                let later: ParamEvent = self.events[place - 1];
                let sooner: ParamEvent = self.events[place];
                let ghost before = self.events@;
                self.events[place - 1] = sooner;
                self.events[place] = later;
                proof {
                    exchange_keeps_multiset(before, place - 1, place as int);
                    assert(self.events@ =~= before.update(place - 1, before[place as int]).update(
                        place as int,
                        before[place - 1],
                    ));
                }
                place = place - 1;
            }
            sorted = sorted + 1;
        }
        self.next_event = 0;
    }

    fn is_due_first(a: &ParamEvent, b: &ParamEvent) -> (result: bool)
        ensures
            result == !due_before(*b, *a),
    {
        a.offset < b.offset || (a.offset == b.offset && a.sequence < b.sequence)
    }

    /// One retained event.
    pub fn get(&self, index: usize) -> (result: Option<ParamEvent>)
        ensures
            result == (if index < self@.events.len() {
                Some(self@.events[index as int])
            } else {
                None
            }),
    {
        if index < self.events.len() {
            Some(self.events[index])
        } else {
            None
        }
    }

    /// Number of retained events.
    pub fn len(&self) -> (result: usize)
        ensures
            result == self@.events.len(),
    {
        self.events.len()
    }

    /// The event that found no room last, for one parameter.
    pub fn overflowed(&self, param_id: u32) -> (result: Option<ParamEvent>)
        requires
            self@.wf(),
        ensures
            result == (match exposed_index(param_id) {
                Some(index) => self@.overflow[index],
                None => None,
            }),
    {
        match param_index(param_id) {
            Some(index) => self.overflow_final[index],
            None => None,
        }
    }

    /// The offset of the first event that was not applied yet.
    pub fn next_offset(&self) -> (result: Option<usize>)
        requires
            self@.wf(),
        ensures
            result == (if self@.next < self@.events.len() {
                Some(self@.events[self@.next as int].offset)
            } else {
                None
            }),
    {
        if self.next_event < self.events.len() {
            Some(self.events[self.next_event].offset)
        } else {
            None
        }
    }

    /// Apply every pending event that is due at or before an offset.
    pub fn apply_through(&mut self, offset: usize, params: &mut GainSnapParams)
        requires
            old(self)@.wf(),
        ensures
            final(self)@.wf(),
            final(self)@ == (Pending {
                next: first_after(
                    old(self)@.events,
                    old(self)@.next as int,
                    offset as int,
                ) as nat,
                ..old(self)@
            }),
            old(self)@.next <= final(self)@.next,
            final(params)@ == after_events(
                old(params)@,
                old(self)@.events,
                old(self)@.next as int,
                final(self)@.next as int,
            ),
    {
        while self.next_event < self.events.len() && self.events[self.next_event].offset <= offset
            invariant
                self@.wf(),
                self.events == old(self).events,
                self.overflow_final == old(self).overflow_final,
                self.block_frames == old(self).block_frames,
                self.next_sequence == old(self).next_sequence,
                old(self).next_event <= self.next_event,
                first_after(self.events@, self.next_event as int, offset as int) == first_after(
                    self.events@,
                    old(self).next_event as int,
                    offset as int,
                ),
                params@ == after_events(
                    old(params)@,
                    self.events@,
                    old(self).next_event as int,
                    self.next_event as int,
                ),
            decreases self.events.len() - self.next_event,
        {
            let event: ParamEvent = self.events[self.next_event];
            params.set_param(event.param_id, event.value);
            self.next_event = self.next_event + 1;
        }
    }

    /// Apply the overflow values, so that the next block starts from the last
    /// value of every parameter.
    pub fn apply_overflow(&self, params: &mut GainSnapParams)
        requires
            self@.wf(),
        ensures
            final(params)@ == after_overflow(
                old(params)@,
                self@.overflow,
                PARAMETER_COUNT as int,
            ),
    {
        let mut index: usize = 0;
        while index < PARAMETER_COUNT
            invariant
                self@.wf(),
                index <= PARAMETER_COUNT,
                params@ == after_overflow(old(params)@, self@.overflow, index as int),
            decreases PARAMETER_COUNT - index,
        {
            if let Some(event) = self.overflow_final[index] {
                params.set_param(event.param_id, event.value);
            }
            index = index + 1;
        }
    }

    /// Apply every event that is still pending, then the overflow values.
    pub fn apply_remaining(&mut self, params: &mut GainSnapParams)
        requires
            old(self)@.wf(),
        ensures
            final(self)@.wf(),
            final(self)@ == (Pending { next: old(self)@.events.len(), ..old(self)@ }),
            final(params)@ == after_overflow(
                after_events(
                    old(params)@,
                    old(self)@.events,
                    old(self)@.next as int,
                    old(self)@.events.len() as int,
                ),
                old(self)@.overflow,
                PARAMETER_COUNT as int,
            ),
    {
        proof {
            everything_is_due_at_the_end(
                self.events@,
                self.next_event as int,
                self.block_frames as int,
            );
        }
        self.apply_through(self.block_frames, params);
        self.apply_overflow(params);
    }
}

proof fn exchange_keeps_multiset(events: Seq<ParamEvent>, i: int, j: int)
    requires
        0 <= i < j < events.len(),
    ensures
        events.update(i, events[j]).update(j, events[i]).to_multiset() == events.to_multiset(),
{
    let once = events.update(i, events[j]);
    vstd::seq_lib::to_multiset_update(events, i, events[j]);
    vstd::seq_lib::to_multiset_update(once, j, events[i]);
    assert(once[j] == events[j]);
    assert(events.to_multiset().contains(events[i]));
    assert(once.update(j, events[i]).to_multiset() =~= events.to_multiset());
}

proof fn everything_is_due_at_the_end(events: Seq<ParamEvent>, from: int, frames: int)
    requires
        0 <= from <= events.len(),
        forall|i: int| 0 <= i < events.len() ==> (#[trigger] events[i]).offset <= frames,
    ensures
        first_after(events, from, frames) == events.len(),
    decreases events.len() - from,
{
    if from < events.len() {
        everything_is_due_at_the_end(events, from + 1, frames);
    }
}

/// In chronological order, the events that are applied through an offset are
/// exactly those that are due at or before it.
pub proof fn applied_through_is_due_by(events: Seq<ParamEvent>, from: int, offset: int)
    requires
        chronological(events),
        0 <= from <= events.len(),
    ensures
        from <= first_after(events, from, offset) <= events.len(),
        forall|i: int|
            from <= i < events.len() ==> (i < first_after(events, from, offset) <==> (
            #[trigger] events[i]).offset <= offset),
    decreases events.len() - from,
{
    if from < events.len() {
        if events[from].offset <= offset {
            applied_through_is_due_by(events, from + 1, offset);
        } else {
            assert forall|i: int| from <= i < events.len() implies (#[trigger] events[i]).offset
                > offset by {
                assert(due_before(events[from], events[i]));
            }
        }
    }
}

/// Applying through one offset and then through a later one applies the same
/// events as applying through the later one alone.
pub proof fn applying_in_steps_is_applying_at_once(
    controls: Controls,
    events: Seq<ParamEvent>,
    from: int,
    sooner: int,
    later: int,
)
    requires
        chronological(events),
        0 <= from <= events.len(),
        sooner <= later,
    ensures
        ({
            let middle = first_after(events, from, sooner);
            let end = first_after(events, middle, later);
            &&& end == first_after(events, from, later)
            &&& after_events(after_events(controls, events, from, middle), events, middle, end)
                == after_events(controls, events, from, end)
        }),
{
    let middle = first_after(events, from, sooner);
    applied_through_is_due_by(events, from, sooner);
    applied_through_is_due_by(events, from, later);
    applied_through_is_due_by(events, middle, later);
    let end = first_after(events, middle, later);
    let whole = first_after(events, from, later);
    if end < whole {
        assert(events[end].offset <= later);
    }
    if whole < end {
        assert(middle <= whole) by {
            if whole < middle {
                assert(events[whole].offset <= sooner);
            }
        }
        assert(events[whole].offset <= later);
    }
    events_in_two_stretches(controls, events, from, middle, end);
}

proof fn events_in_two_stretches(
    controls: Controls,
    events: Seq<ParamEvent>,
    from: int,
    middle: int,
    end: int,
)
    requires
        0 <= from <= middle <= end <= events.len(),
    ensures
        after_events(after_events(controls, events, from, middle), events, middle, end)
            == after_events(controls, events, from, end),
    decreases end - middle,
{
    if middle < end {
        events_in_two_stretches(controls, events, from, middle, end - 1);
    }
}

/// The chronological order of a set of events with distinct arrival numbers is
/// unique: events of one offset stay in the order in which they arrived.
pub proof fn chronological_order_is_unique(a: Seq<ParamEvent>, b: Seq<ParamEvent>)
    requires
        chronological(a),
        chronological(b),
        a.to_multiset() == b.to_multiset(),
        forall|i: int, j: int|
            0 <= i < j < a.len() ==> (#[trigger] a[i]).sequence != (#[trigger] a[j]).sequence,
    ensures
        a == b,
    decreases a.len(),
{
    assert(a.to_multiset().len() == a.len());
    assert(b.to_multiset().len() == b.len());
    if a.len() > 0 {
        let last = a.last();
        assert(b.to_multiset().contains(last));
        assert(b.contains(last));
        assert(a.to_multiset().contains(b.last()));
        assert(a.contains(b.last()));
        let i = choose|i: int| 0 <= i < a.len() && a[i] == b.last();
        let j = choose|j: int| 0 <= j < b.len() && b[j] == last;
        assert(due_before(a[i], a[a.len() - 1]));
        assert(due_before(b[j], b[b.len() - 1]));
        assert(b.last() == last);
        vstd::seq_lib::to_multiset_remove(a, a.len() - 1);
        vstd::seq_lib::to_multiset_remove(b, b.len() - 1);
        assert(a.remove(a.len() - 1) =~= a.drop_last());
        assert(b.remove(b.len() - 1) =~= b.drop_last());
        chronological_order_is_unique(a.drop_last(), b.drop_last());
        assert(a =~= a.drop_last().push(last));
        assert(b =~= b.drop_last().push(last));
    }
}

/// A block that took more events than it retains still ends on the last value
/// of every parameter that overflowed.
pub proof fn overflow_decides_the_final_value(
    controls: Controls,
    overflow: Seq<Option<ParamEvent>>,
    index: int,
)
    requires
        overflow.len() == PARAMETER_COUNT,
        forall|i: int|
            0 <= i < overflow.len() ==> ((#[trigger] overflow[i]) matches Some(event)
                ==> exposed_index(event.param_id) == Some(i)),
        0 <= index < PARAMETER_COUNT,
    ensures
        ({
            let id = (index + 1) as u32;
            let end = after_overflow(controls, overflow, PARAMETER_COUNT as int);
            match overflow[index] {
                Some(event) => event.param_id == id && param_of(end, id) == param_of(
                    with_param(controls, id, event.value),
                    id,
                ),
                None => param_of(end, id) == param_of(controls, id),
            }
        }),
{
    reveal_with_fuel(after_overflow, 5);
    assert(overflow[0] matches Some(event) ==> event.param_id == 1);
    assert(overflow[1] matches Some(event) ==> event.param_id == 2);
    assert(overflow[2] matches Some(event) ==> event.param_id == 3);
    assert(overflow[3] matches Some(event) ==> event.param_id == 4);
}

/// Overflow values are only ever of parameters offered to hosts.
proof fn overflow_spares_other_parameters(
    controls: Controls,
    overflow: Seq<Option<ParamEvent>>,
    id: u32,
)
    requires
        overflow.len() == PARAMETER_COUNT,
        forall|i: int|
            0 <= i < overflow.len() ==> ((#[trigger] overflow[i]) matches Some(event)
                ==> exposed_index(event.param_id) == Some(i)),
        exposed_index(id) is None,
    ensures
        param_of(after_overflow(controls, overflow, PARAMETER_COUNT as int), id) == param_of(
            controls,
            id,
        ),
{
    reveal_with_fuel(after_overflow, 5);
    assert(overflow[0] matches Some(event) ==> event.param_id == 1);
    assert(overflow[1] matches Some(event) ==> event.param_id == 2);
    assert(overflow[2] matches Some(event) ==> event.param_id == 3);
    assert(overflow[3] matches Some(event) ==> event.param_id == 4);
}

/// Applying the overflow values a second time changes nothing.
pub proof fn applying_overflow_again_changes_nothing(
    controls: Controls,
    overflow: Seq<Option<ParamEvent>>,
)
    requires
        overflow.len() == PARAMETER_COUNT,
        forall|i: int|
            0 <= i < overflow.len() ==> ((#[trigger] overflow[i]) matches Some(event)
                ==> exposed_index(event.param_id) == Some(i)),
    ensures
        ({
            let once = after_overflow(controls, overflow, PARAMETER_COUNT as int);
            after_overflow(once, overflow, PARAMETER_COUNT as int) == once
        }),
{
    reveal_with_fuel(after_overflow, 5);
    assert(overflow[0] matches Some(event) ==> event.param_id == 1);
    assert(overflow[1] matches Some(event) ==> event.param_id == 2);
    assert(overflow[2] matches Some(event) ==> event.param_id == 3);
    assert(overflow[3] matches Some(event) ==> event.param_id == 4);
}

/// A full timeline keeps what it retained, and remembers the newest event of
/// each parameter instead.
pub proof fn a_full_block_remembers_the_newest_value(
    pending: Pending,
    offset: int,
    event: ParamEvent,
)
    requires
        pending.wf(),
        pending.events.len() == PARAM_EVENT_CAPACITY,
        exposed_index(event.param_id) is Some,
    ensures
        ({
            let full = pushed(pending, offset, event);
            let index = exposed_index(event.param_id)->0;
            &&& full.events == pending.events
            &&& full.overflow[index] matches Some(newest)
            &&& newest.param_id == event.param_id
            &&& newest.value == event.value
            &&& forall|i: int|
                0 <= i < PARAMETER_COUNT && i != index ==> #[trigger] full.overflow[i]
                    == pending.overflow[i]
        }),
{
}

/// While a block collects events, their arrival numbers count up from 0.
pub open spec fn numbered(pending: Pending) -> bool {
    &&& forall|i: int|
        0 <= i < pending.events.len() ==> (#[trigger] pending.events[i]).sequence == i
    &&& pending.events.len() < PARAM_EVENT_CAPACITY ==> pending.sequence == pending.events.len()
}

/// Collecting keeps the arrival numbers distinct.
pub proof fn collecting_numbers_events(
    pending: Pending,
    offset: int,
    event: ParamEvent,
    frames: nat,
)
    requires
        pending.wf(),
        numbered(pending),
    ensures
        numbered(empty_block(frames)),
        numbered(pushed(pending, offset, event)),
{
}

/// Applying events ends on the newest one of each parameter, and leaves a
/// parameter without events as it was.
pub proof fn the_newest_event_decides(
    controls: Controls,
    events: Seq<ParamEvent>,
    from: int,
    to: int,
    id: u32,
)
    requires
        0 <= from <= to <= events.len(),
    ensures
        forall|newest: int|
            from <= newest < to && (#[trigger] events[newest]).param_id == id && (forall|i: int|
                newest < i < to ==> (#[trigger] events[i]).param_id != id) ==> param_of(
                after_events(controls, events, from, to),
                id,
            ) == param_of(with_param(controls, id, events[newest].value), id),
        (forall|i: int| from <= i < to ==> (#[trigger] events[i]).param_id != id) ==> param_of(
            after_events(controls, events, from, to),
            id,
        ) == param_of(controls, id),
    decreases to - from,
{
    if from < to {
        the_newest_event_decides(controls, events, from, to - 1, id);
        let last = events[to - 1];
        let before = after_events(controls, events, from, to - 1);
        assert(param_of(with_param(before, id, last.value), id) == param_of(
            with_param(controls, id, last.value),
            id,
        ));
    }
}

/// The index of the newest event of a parameter, where there is one.
pub open spec fn newest_of(events: Seq<ParamEvent>, id: u32) -> Option<int>
    decreases events.len(),
{
    if events.len() == 0 {
        None
    } else if events.last().param_id == id {
        Some(events.len() - 1)
    } else {
        newest_of(events.drop_last(), id)
    }
}

proof fn newest_is_behind_the_others(events: Seq<ParamEvent>, id: u32)
    ensures
        match newest_of(events, id) {
            Some(newest) => {
                &&& 0 <= newest < events.len()
                &&& events[newest].param_id == id
                &&& forall|i: int|
                    newest < i < events.len() ==> (#[trigger] events[i]).param_id != id
            },
            None => forall|i: int|
                0 <= i < events.len() ==> (#[trigger] events[i]).param_id != id,
        },
    decreases events.len(),
{
    if events.len() > 0 {
        let shorter = events.drop_last();
        newest_is_behind_the_others(shorter, id);
        assert forall|i: int| 0 <= i < shorter.len() implies shorter[i] == #[trigger] events[i] by {
        }
    }
}

/// One event as a host hands it over: where it wants it, and what it carries.
pub struct Push {
    /// Offset that the host gave.
    pub offset: int,
    /// The event.
    pub event: ParamEvent,
}

/// A block that collected some events.
pub open spec fn collected(frames: nat, pushes: Seq<Push>) -> Pending
    decreases pushes.len(),
{
    if pushes.len() == 0 {
        empty_block(frames)
    } else {
        pushed(
            collected(frames, pushes.drop_last()),
            pushes.last().offset,
            pushes.last().event,
        )
    }
}

/// How many events are for parameters offered to hosts.
pub open spec fn offered(pushes: Seq<Push>) -> nat
    decreases pushes.len(),
{
    if pushes.len() == 0 {
        0
    } else {
        offered(pushes.drop_last()) + if exposed_index(pushes.last().event.param_id) is Some {
            1nat
        } else {
            0nat
        }
    }
}

/// Whether an event found no room.
pub open spec fn overflows(pushes: Seq<Push>, k: int) -> bool {
    offered(pushes.take(k)) >= PARAM_EVENT_CAPACITY
}

/// Where an event is placed in its block.
pub open spec fn placed_offset(frames: nat, offset: int) -> int {
    if offset <= 0 {
        0
    } else if offset < frames {
        offset
    } else {
        frames as int
    }
}

/// Whether an event decides what its parameter ends on: the last one, where the
/// last one found no room; else the one that is due last, the later arrival
/// where two are due at once.
pub open spec fn decides(frames: nat, pushes: Seq<Push>, k: int) -> bool {
    let id = pushes[k].event.param_id;
    &&& exposed_index(id) is Some
    &&& if overflows(pushes, k) {
        forall|j: int| k < j < pushes.len() ==> (#[trigger] pushes[j]).event.param_id != id
    } else {
        forall|j: int|
            0 <= j < pushes.len() && (#[trigger] pushes[j]).event.param_id == id ==> {
                let mine = placed_offset(frames, pushes[k].offset);
                let other = placed_offset(frames, pushes[j].offset);
                !overflows(pushes, j) && (other < mine || (other == mine && j <= k))
            }
    }
}

/// Whether a retained event is the one that was handed over as the `j`th.
pub open spec fn retains(frames: nat, pushes: Seq<Push>, j: int, event: ParamEvent) -> bool {
    &&& event.param_id == pushes[j].event.param_id
    &&& event.value == pushes[j].event.value
    &&& event.offset == placed_offset(frames, pushes[j].offset)
    &&& event.sequence == offered(pushes.take(j))
}

proof fn offered_counts_up(pushes: Seq<Push>, i: int, j: int)
    requires
        0 <= i <= j <= pushes.len(),
    ensures
        offered(pushes.take(i)) <= offered(pushes.take(j)),
        i < j && exposed_index(pushes[i].event.param_id) is Some ==> offered(pushes.take(i))
            < offered(pushes.take(j)),
    decreases j - i,
{
    if i < j {
        offered_counts_up(pushes, i, j - 1);
        assert(pushes.take(j).drop_last() =~= pushes.take(j - 1));
        assert(pushes.take(j).last() == pushes[j - 1]);
    }
}

/// Collecting retains as many events as fit, and is still at the first one.
pub proof fn collecting_retains_what_fits(frames: nat, pushes: Seq<Push>)
    requires
        frames <= usize::MAX,
    ensures
        ({
            let pending = collected(frames, pushes);
            let count = offered(pushes);
            &&& pending.wf()
            &&& pending.frames == frames
            &&& pending.next == 0
            &&& pending.events.len() == if count < PARAM_EVENT_CAPACITY {
                count as int
            } else {
                PARAM_EVENT_CAPACITY as int
            }
            &&& count <= PARAM_EVENT_CAPACITY ==> pending.sequence == count
        }),
    decreases pushes.len(),
{
    if pushes.len() > 0 {
        collecting_retains_what_fits(frames, pushes.drop_last());
    }
}

/// An event that finds room is retained in its place, with its arrival number.
pub proof fn an_event_with_room_is_retained(frames: nat, pushes: Seq<Push>, j: int)
    requires
        frames <= usize::MAX,
        0 <= j < pushes.len(),
        exposed_index(pushes[j].event.param_id) is Some,
        !overflows(pushes, j),
    ensures
        offered(pushes.take(j)) < collected(frames, pushes).events.len(),
        retains(
            frames,
            pushes,
            j,
            collected(frames, pushes).events[offered(pushes.take(j)) as int],
        ),
    decreases pushes.len(),
{
    let shorter = pushes.drop_last();
    collecting_retains_what_fits(frames, shorter);
    if j < shorter.len() {
        assert(shorter.take(j) =~= pushes.take(j));
        an_event_with_room_is_retained(frames, shorter, j);
    } else {
        assert(shorter =~= pushes.take(j));
    }
}

/// Every retained event was handed over.
proof fn a_retained_event_was_handed_over(frames: nat, pushes: Seq<Push>, i: int) -> (j: int)
    requires
        frames <= usize::MAX,
        0 <= i < collected(frames, pushes).events.len(),
    ensures
        0 <= j < pushes.len(),
        exposed_index(pushes[j].event.param_id) is Some,
        !overflows(pushes, j),
        offered(pushes.take(j)) == i,
        retains(frames, pushes, j, collected(frames, pushes).events[i]),
    decreases pushes.len(),
{
    let shorter = pushes.drop_last();
    collecting_retains_what_fits(frames, shorter);
    if i < collected(frames, shorter).events.len() {
        let j = a_retained_event_was_handed_over(frames, shorter, i);
        assert(shorter.take(j) =~= pushes.take(j));
        j
    } else {
        assert(shorter =~= pushes.take(pushes.len() - 1));
        pushes.len() - 1
    }
}

/// The last event of a parameter that found no room.
pub open spec fn last_lost(pushes: Seq<Push>, index: int) -> Option<int>
    decreases pushes.len(),
{
    if pushes.len() == 0 {
        None
    } else if exposed_index(pushes.last().event.param_id) == Some(index) && overflows(
        pushes,
        pushes.len() - 1,
    ) {
        Some(pushes.len() - 1)
    } else {
        last_lost(pushes.drop_last(), index)
    }
}

proof fn the_last_lost_event_is_the_last(pushes: Seq<Push>, index: int)
    ensures
        match last_lost(pushes, index) {
            Some(k) => {
                &&& 0 <= k < pushes.len()
                &&& exposed_index(pushes[k].event.param_id) == Some(index)
                &&& overflows(pushes, k)
                &&& forall|j: int|
                    k < j < pushes.len() ==> exposed_index((#[trigger] pushes[j]).event.param_id)
                        != Some(index)
            },
            None => forall|j: int|
                0 <= j < pushes.len() && exposed_index((#[trigger] pushes[j]).event.param_id)
                    == Some(index) ==> !overflows(pushes, j),
        },
    decreases pushes.len(),
{
    if pushes.len() > 0 {
        let shorter = pushes.drop_last();
        let last = pushes.len() - 1;
        the_last_lost_event_is_the_last(shorter, index);
        match last_lost(shorter, index) {
            Some(k) => {
                assert(shorter.take(k) =~= pushes.take(k));
                offered_counts_up(pushes, k, last);
                assert forall|j: int| k < j < last implies exposed_index(
                    (#[trigger] pushes[j]).event.param_id,
                ) != Some(index) by {
                    assert(pushes[j] == shorter[j]);
                }
            },
            None => {
                assert forall|j: int|
                    0 <= j < last && exposed_index((#[trigger] pushes[j]).event.param_id) == Some(
                        index,
                    ) implies !overflows(pushes, j) by {
                    assert(pushes[j] == shorter[j]);
                    assert(shorter.take(j) =~= pushes.take(j));
                }
            },
        }
    }
}

proof fn the_last_lost_event_is_remembered(frames: nat, pushes: Seq<Push>, index: int)
    requires
        frames <= usize::MAX,
        0 <= index < PARAMETER_COUNT,
    ensures
        match last_lost(pushes, index) {
            Some(k) => {
                &&& collected(frames, pushes).overflow[index] matches Some(event)
                &&& event.value == pushes[k].event.value
            },
            None => collected(frames, pushes).overflow[index] is None,
        },
    decreases pushes.len(),
{
    if pushes.len() > 0 {
        let shorter = pushes.drop_last();
        collecting_retains_what_fits(frames, shorter);
        the_last_lost_event_is_the_last(shorter, index);
        the_last_lost_event_is_remembered(frames, shorter, index);
        assert(shorter =~= pushes.take(pushes.len() - 1));
    }
}

/// Two events of one parameter cannot both decide.
proof fn one_event_decides(frames: nat, pushes: Seq<Push>, j: int, k: int)
    requires
        0 <= j < pushes.len(),
        0 <= k < pushes.len(),
        decides(frames, pushes, j),
        decides(frames, pushes, k),
        pushes[j].event.param_id == pushes[k].event.param_id,
    ensures
        j == k,
{
    if j < k {
        offered_counts_up(pushes, j, k);
        assert(pushes[k].event.param_id == pushes[k].event.param_id);
    } else if k < j {
        offered_counts_up(pushes, k, j);
        assert(pushes[j].event.param_id == pushes[j].event.param_id);
    }
}

/// The controls at the end of a block: the retained events in order, then the
/// overflow values.
pub open spec fn block_end(
    controls: Controls,
    order: Seq<ParamEvent>,
    overflow: Seq<Option<ParamEvent>>,
) -> Controls {
    after_overflow(
        after_events(controls, order, 0, order.len() as int),
        overflow,
        PARAMETER_COUNT as int,
    )
}

/// The event that decides what a parameter ends on, where one was handed over.
proof fn the_deciding_event(
    controls: Controls,
    frames: nat,
    pushes: Seq<Push>,
    order: Seq<ParamEvent>,
    id: u32,
) -> (deciding: Option<int>)
    requires
        frames <= usize::MAX,
        chronological(order),
        order.to_multiset() == collected(frames, pushes).events.to_multiset(),
        exposed_index(id) is Some,
    ensures
        ({
            let end = block_end(controls, order, collected(frames, pushes).overflow);
            match deciding {
                Some(k) => {
                    &&& 0 <= k < pushes.len()
                    &&& pushes[k].event.param_id == id
                    &&& decides(frames, pushes, k)
                    &&& param_of(end, id) == param_of(
                        with_param(controls, id, pushes[k].event.value),
                        id,
                    )
                },
                None => {
                    &&& forall|j: int|
                        0 <= j < pushes.len() ==> (#[trigger] pushes[j]).event.param_id != id
                    &&& param_of(end, id) == param_of(controls, id)
                },
            }
        }),
{
    let pending = collected(frames, pushes);
    let index = exposed_index(id)->0;
    let applied = after_events(controls, order, 0, order.len() as int);
    collecting_retains_what_fits(frames, pushes);
    the_last_lost_event_is_the_last(pushes, index);
    the_last_lost_event_is_remembered(frames, pushes, index);
    overflow_decides_the_final_value(applied, pending.overflow, index);
    the_newest_event_decides(controls, order, 0, order.len() as int, id);
    newest_is_behind_the_others(order, id);
    match last_lost(pushes, index) {
        Some(k) => Some(k),
        None => {
            assert forall|j: int|
                0 <= j < pushes.len() && (#[trigger] pushes[j]).event.param_id == id implies exists|
                n: int|
                0 <= n < order.len() && retains(frames, pushes, j, #[trigger] order[n]) by {
                an_event_with_room_is_retained(frames, pushes, j);
                let event = pending.events[offered(pushes.take(j)) as int];
                assert(pending.events.to_multiset().contains(event));
                assert(order.to_multiset().contains(event));
                assert(order.contains(event));
            }
            match newest_of(order, id) {
                Some(newest) => {
                    assert(order.to_multiset().contains(order[newest]));
                    assert(pending.events.to_multiset().contains(order[newest]));
                    assert(pending.events.contains(order[newest]));
                    let i = choose|i: int|
                        0 <= i < pending.events.len() && pending.events[i] == order[newest];
                    let k = a_retained_event_was_handed_over(frames, pushes, i);
                    assert forall|j: int|
                        0 <= j < pushes.len() && (#[trigger] pushes[j]).event.param_id
                            == id implies {
                        let mine = placed_offset(frames, pushes[k].offset);
                        let other = placed_offset(frames, pushes[j].offset);
                        !overflows(pushes, j) && (other < mine || (other == mine && j <= k))
                    } by {
                        let n = choose|n: int|
                            0 <= n < order.len() && retains(
                                frames,
                                pushes,
                                j,
                                #[trigger] order[n],
                            );
                        assert(n <= newest);
                        assert(due_before(order[n], order[newest]));
                        if k < j {
                            offered_counts_up(pushes, k, j);
                        }
                    }
                    Some(k)
                },
                None => None,
            }
        },
    }
}

/// A block ends on what was handed over.
///
/// Whatever was applied on the way, every parameter offered to hosts ends on the
/// value of the one event that decides, and a parameter for which nothing was
/// handed over, or that is not offered, ends as it began. Finishing the block a
/// second time changes nothing.
pub proof fn a_block_ends_on_what_was_handed_over(
    controls: Controls,
    frames: nat,
    pushes: Seq<Push>,
    order: Seq<ParamEvent>,
    applied: int,
)
    requires
        frames <= usize::MAX,
        chronological(order),
        order.to_multiset() == collected(frames, pushes).events.to_multiset(),
        0 <= applied <= order.len(),
    ensures
        ({
            let overflow = collected(frames, pushes).overflow;
            let length = order.len() as int;
            let midway = after_events(controls, order, 0, applied);
            let end = after_overflow(
                after_events(midway, order, applied, length),
                overflow,
                PARAMETER_COUNT as int,
            );
            &&& forall|k: int|
                0 <= k < pushes.len() && #[trigger] decides(frames, pushes, k) ==> {
                    let event = pushes[k].event;
                    param_of(end, event.param_id) == param_of(
                        with_param(controls, event.param_id, event.value),
                        event.param_id,
                    )
                }
            &&& forall|j: int|
                0 <= j < pushes.len() && exposed_index((#[trigger] pushes[j]).event.param_id) is Some
                    ==> exists|k: int|
                    0 <= k < pushes.len() && pushes[k].event.param_id == pushes[j].event.param_id
                        && #[trigger] decides(frames, pushes, k)
            &&& forall|id: u32|
                exposed_index(id) is None || (forall|j: int|
                    0 <= j < pushes.len() ==> (#[trigger] pushes[j]).event.param_id != id)
                    ==> #[trigger] param_of(end, id) == param_of(controls, id)
            &&& after_overflow(
                after_events(end, order, length, length),
                overflow,
                PARAMETER_COUNT as int,
            ) == end
        }),
{
    let overflow = collected(frames, pushes).overflow;
    let length = order.len() as int;
    let end = block_end(controls, order, overflow);
    events_in_two_stretches(controls, order, 0, applied, length);
    collecting_retains_what_fits(frames, pushes);
    assert forall|k: int| 0 <= k < pushes.len() && #[trigger] decides(frames, pushes, k) implies ({
        let event = pushes[k].event;
        param_of(end, event.param_id) == param_of(
            with_param(controls, event.param_id, event.value),
            event.param_id,
        )
    }) by {
        let id = pushes[k].event.param_id;
        if let Some(j) = the_deciding_event(controls, frames, pushes, order, id) {
            one_event_decides(frames, pushes, j, k);
        }
    }
    assert forall|j: int|
        0 <= j < pushes.len() && exposed_index(
            (#[trigger] pushes[j]).event.param_id,
        ) is Some implies exists|k: int|
        0 <= k < pushes.len() && pushes[k].event.param_id == pushes[j].event.param_id
            && #[trigger] decides(frames, pushes, k) by {
        let deciding = the_deciding_event(
            controls,
            frames,
            pushes,
            order,
            pushes[j].event.param_id,
        );
        assert(decides(frames, pushes, deciding->0));
    }
    assert forall|id: u32|
        exposed_index(id) is None || (forall|j: int|
            0 <= j < pushes.len() ==> (#[trigger] pushes[j]).event.param_id != id) implies (
    #[trigger] param_of(end, id)) == param_of(controls, id) by {
        if exposed_index(id) is Some {
            let deciding = the_deciding_event(controls, frames, pushes, order, id);
        } else {
            assert forall|i: int| 0 <= i < length implies (#[trigger] order[i]).param_id != id by {
                let events = collected(frames, pushes).events;
                assert(order.to_multiset().contains(order[i]));
                assert(events.to_multiset().contains(order[i]));
                assert(events.contains(order[i]));
                let n = choose|n: int| 0 <= n < events.len() && events[n] == order[i];
                let j = a_retained_event_was_handed_over(frames, pushes, n);
            }
            the_newest_event_decides(controls, order, 0, length, id);
            overflow_spares_other_parameters(
                after_events(controls, order, 0, length),
                overflow,
                id,
            );
        }
    }
    applying_overflow_again_changes_nothing(
        after_events(controls, order, 0, length),
        overflow,
    );
}

/// One event is due before another by its offset, and at one offset by its
/// arrival; a block retains two hundred and fifty-six.
pub proof fn events_are_due_by_offset_then_arrival(a: ParamEvent, b: ParamEvent, frames: nat)
    ensures
        a.offset < b.offset ==> due_before(a, b) && !due_before(b, a),
        a.offset == b.offset && a.sequence < b.sequence ==> due_before(a, b) && !due_before(b, a),
        a.offset == b.offset && a.sequence == b.sequence ==> due_before(a, b) && due_before(b, a),
        PARAM_EVENT_CAPACITY == 256,
        empty_block(frames).events.len() == 0,
        empty_block(frames).frames == frames,
        empty_block(frames).next == 0,
        empty_block(frames).sequence == 0,
        empty_block(frames).overflow.len() == 4,
        forall|i: int| 0 <= i < 4 ==> (#[trigger] empty_block(frames).overflow[i]) is None,
{
}

} // verus!
