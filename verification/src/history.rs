//! Rolling maxima over the most recent stretch of a measurement.
use vstd::prelude::*;

use crate::single;

verus! {

/// Number of buckets in a history.
pub const MATCH_HISTORY_BUCKET_COUNT: usize = 31;

/// The highest of some levels, or silence where there is none. Levels are
/// ordered as their bit patterns are.
pub open spec fn highest(levels: Seq<u32>) -> u32
    decreases levels.len(),
{
    if levels.len() == 0 {
        single::ZERO
    } else if levels.last() > highest(levels.drop_last()) {
        levels.last()
    } else {
        highest(levels.drop_last())
    }
}

/// Buckets after a level was noted in the newest one.
pub open spec fn noted(buckets: Seq<u32>, level: u32) -> Seq<u32> {
    if level > buckets.last() {
        buckets.drop_last().push(level)
    } else {
        buckets
    }
}

/// Buckets after the oldest one gave way to a new one.
pub open spec fn rotated(buckets: Seq<u32>) -> Seq<u32> {
    buckets.skip(1).push(single::ZERO)
}

/// Buckets without any level.
pub open spec fn silent_buckets() -> Seq<u32> {
    Seq::new(MATCH_HISTORY_BUCKET_COUNT as nat, |i: int| single::ZERO)
}

/// Per-bucket maxima of a level, with the maximum over all of them.
pub struct RollingMaximum {
    ring: Vec<u32>,
    newest: usize,
    maximum: u32,
}

impl View for RollingMaximum {
    type V = Seq<u32>;

    /// The buckets, oldest first.
    closed spec fn view(&self) -> Seq<u32> {
        self.ring@.skip(self.newest + 1) + self.ring@.take(self.newest + 1)
    }
}

impl RollingMaximum {
    /// The invariant: a full ring of levels, whose maximum is kept up to date.
    pub closed spec fn wf(&self) -> bool {
        &&& self.ring@.len() == MATCH_HISTORY_BUCKET_COUNT
        &&& self.newest < MATCH_HISTORY_BUCKET_COUNT
        &&& forall|i: int| 0 <= i < self.ring@.len() ==> single::is_level(#[trigger] self.ring@[i])
        &&& self.maximum == highest(self@)
    }

    /// What the invariant says of the view.
    pub proof fn buckets_are_levels(&self)
        requires
            self.wf(),
        ensures
            self@.len() == MATCH_HISTORY_BUCKET_COUNT,
            forall|i: int| 0 <= i < self@.len() ==> single::is_level(#[trigger] self@[i]),
    {
    }

    /// Construct silent buckets.
    pub fn new() -> (result: Self)
        ensures
            result.wf(),
            result@ == silent_buckets(),
    {
        let ring: Vec<u32> = vec![single::ZERO; MATCH_HISTORY_BUCKET_COUNT];
        let result = RollingMaximum { ring, newest: 0, maximum: single::ZERO };
        assert(result@ =~= silent_buckets());
        proof {
            silence_is_highest(result@);
        }
        result
    }

    /// Silence every bucket.
    pub fn reset(&mut self)
        requires
            old(self).wf(),
        ensures
            final(self).wf(),
            final(self)@ == silent_buckets(),
    {
        let mut i: usize = 0;
        while i < MATCH_HISTORY_BUCKET_COUNT
            invariant
                i <= MATCH_HISTORY_BUCKET_COUNT,
                self.ring@.len() == MATCH_HISTORY_BUCKET_COUNT,
                forall|j: int| 0 <= j < i ==> self.ring@[j] == single::ZERO,
            decreases MATCH_HISTORY_BUCKET_COUNT - i,
        {
            self.ring[i] = single::ZERO;
            i = i + 1;
        }
        self.newest = 0;
        self.maximum = single::ZERO;
        assert(self@ =~= silent_buckets());
        proof {
            silence_is_highest(self@);
        }
    }

    /// The highest level in any bucket.
    pub fn maximum(&self) -> (result: u32)
        requires
            self.wf(),
        ensures
            result == highest(self@),
    {
        self.maximum
    }

    /// Note a level in the newest bucket; reports whether it is higher than
    /// every level before it.
    pub fn observe(&mut self, level: u32) -> (result: bool)
        requires
            old(self).wf(),
            single::is_level(level),
        ensures
            final(self).wf(),
            final(self)@ == noted(old(self)@, level),
            result == (level > highest(old(self)@)),
            highest(final(self)@) == (if result {
                level
            } else {
                highest(old(self)@)
            }),
    {
        let ghost before = self@;
        proof {
            noting_raises_the_highest(before, level);
        }
        assert(before.last() == self.ring@[self.newest as int]);
        if level > self.ring[self.newest] {
            self.ring[self.newest] = level;
        }
        assert(self@ =~= noted(before, level));
        if level > self.maximum {
            self.maximum = level;
            true
        } else {
            false
        }
    }

    /// Start a new bucket in place of the oldest one.
    pub fn rotate(&mut self)
        requires
            old(self).wf(),
        ensures
            final(self).wf(),
            final(self)@ == rotated(old(self)@),
    {
        let ghost before = self@;
        self.newest = if self.newest + 1 == MATCH_HISTORY_BUCKET_COUNT {
            0
        } else {
            self.newest + 1
        };
        self.ring[self.newest] = single::ZERO;
        assert(self@ =~= rotated(before));
        let mut i: usize = 0;
        let mut maximum: u32 = single::ZERO;
        let start: usize = self.newest + 1;
        while i < MATCH_HISTORY_BUCKET_COUNT
            invariant
                i <= MATCH_HISTORY_BUCKET_COUNT == self.ring@.len(),
                1 <= start <= MATCH_HISTORY_BUCKET_COUNT,
                start == self.newest + 1,
                maximum == highest(self@.take(i as int)),
            decreases MATCH_HISTORY_BUCKET_COUNT - i,
        {
            let place: usize = if i < MATCH_HISTORY_BUCKET_COUNT - start {
                start + i
            } else {
                i - (MATCH_HISTORY_BUCKET_COUNT - start)
            };
            assert(self@.take(i + 1).drop_last() =~= self@.take(i as int));
            assert(self@[i as int] == self.ring@[place as int]);
            if self.ring[place] > maximum {
                maximum = self.ring[place];
            }
            i = i + 1;
        }
        assert(self@.take(MATCH_HISTORY_BUCKET_COUNT as int) =~= self@);
        self.maximum = maximum;
    }
}

proof fn silence_is_highest(levels: Seq<u32>)
    requires
        forall|i: int| 0 <= i < levels.len() ==> #[trigger] levels[i] == single::ZERO,
    ensures
        highest(levels) == single::ZERO,
    decreases levels.len(),
{
    if levels.len() > 0 {
        silence_is_highest(levels.drop_last());
    }
}

proof fn noting_raises_the_highest(buckets: Seq<u32>, level: u32)
    requires
        buckets.len() > 0,
    ensures
        highest(noted(buckets, level)) == (if level > highest(buckets) {
            level
        } else {
            highest(buckets)
        }),
{
    assert(buckets.drop_last().push(level).drop_last() =~= buckets.drop_last());
}

/// The highest level is at least every level, and is one of them unless all are
/// silent.
pub proof fn highest_is_the_maximum(levels: Seq<u32>)
    ensures
        forall|i: int| 0 <= i < levels.len() ==> #[trigger] levels[i] <= highest(levels),
        highest(levels) == single::ZERO || exists|i: int|
            0 <= i < levels.len() && #[trigger] levels[i] == highest(levels),
    decreases levels.len(),
{
    if levels.len() > 0 {
        let shorter = levels.drop_last();
        highest_is_the_maximum(shorter);
        assert forall|i: int| 0 <= i < levels.len() implies #[trigger] levels[i] <= highest(
            levels,
        ) by {
            if i < shorter.len() {
                assert(levels[i] == shorter[i]);
            }
        }
        if highest(levels) != single::ZERO {
            if levels.last() > highest(shorter) {
                assert(levels[levels.len() - 1] == highest(levels));
            } else {
                let i = choose|i: int|
                    0 <= i < shorter.len() && #[trigger] shorter[i] == highest(shorter);
                assert(levels[i] == highest(levels));
            }
        }
    }
}

/// A full row of buckets, each holding a level.
pub open spec fn sound_buckets(buckets: Seq<u32>) -> bool {
    &&& buckets.len() == MATCH_HISTORY_BUCKET_COUNT
    &&& forall|i: int| 0 <= i < buckets.len() ==> single::is_level(#[trigger] buckets[i])
}

/// Buckets stay sound whatever happens to them: a noted level raises the highest
/// one to at least itself, and a rotation never raises it.
pub proof fn buckets_stay_sound(buckets: Seq<u32>, level: u32)
    requires
        sound_buckets(buckets),
        single::is_level(level),
    ensures
        single::is_level(highest(buckets)),
        sound_buckets(noted(buckets, level)),
        highest(noted(buckets, level)) == (if level > highest(buckets) {
            level
        } else {
            highest(buckets)
        }),
        sound_buckets(rotated(buckets)),
        highest(rotated(buckets)) <= highest(buckets),
        sound_buckets(silent_buckets()),
        highest(silent_buckets()) == single::ZERO,
{
    highest_is_the_maximum(buckets);
    noting_raises_the_highest(buckets, level);
    let turned = rotated(buckets);
    highest_is_the_maximum(turned);
    if highest(turned) != single::ZERO {
        let i = choose|i: int| 0 <= i < turned.len() && #[trigger] turned[i] == highest(turned);
        assert(turned[i] == buckets[i + 1]);
    }
    silence_is_highest(silent_buckets());
}

/// The buckets after a run of steps: a level that was noted, or a rotation.
pub open spec fn replayed(buckets: Seq<u32>, steps: Seq<Option<u32>>) -> Seq<u32>
    decreases steps.len(),
{
    if steps.len() == 0 {
        buckets
    } else {
        let before = replayed(buckets, steps.drop_last());
        match steps.last() {
            Some(level) => noted(before, level),
            None => rotated(before),
        }
    }
}

/// Number of rotations in a run of steps.
pub open spec fn rotations(steps: Seq<Option<u32>>) -> nat
    decreases steps.len(),
{
    if steps.len() == 0 {
        0
    } else {
        rotations(steps.drop_last()) + if steps.last() is None {
            1nat
        } else {
            0nat
        }
    }
}

/// Evidence ages out: once every bucket has been replaced, only the levels
/// noted since then count.
pub proof fn evidence_ages_out(buckets: Seq<u32>, steps: Seq<Option<u32>>, limit: u32)
    requires
        buckets.len() == MATCH_HISTORY_BUCKET_COUNT,
        forall|i: int| 0 <= i < steps.len() ==> ((#[trigger] steps[i]) matches Some(level) ==> level <= limit),
        rotations(steps) >= MATCH_HISTORY_BUCKET_COUNT,
    ensures
        highest(replayed(buckets, steps)) <= limit,
{
    newest_buckets_are_limited(buckets, steps, limit);
    highest_is_the_maximum(replayed(buckets, steps));
}

proof fn newest_buckets_are_limited(buckets: Seq<u32>, steps: Seq<Option<u32>>, limit: u32)
    requires
        buckets.len() == MATCH_HISTORY_BUCKET_COUNT,
        forall|i: int| 0 <= i < steps.len() ==> ((#[trigger] steps[i]) matches Some(level) ==> level <= limit),
    ensures
        replayed(buckets, steps).len() == MATCH_HISTORY_BUCKET_COUNT,
        forall|i: int|
            0 <= i < MATCH_HISTORY_BUCKET_COUNT && i >= MATCH_HISTORY_BUCKET_COUNT - rotations(
                steps,
            ) ==> #[trigger] replayed(buckets, steps)[i] <= limit,
    decreases steps.len(),
{
    if steps.len() > 0 {
        let shorter = steps.drop_last();
        assert forall|i: int| 0 <= i < shorter.len() implies ((#[trigger] shorter[i]) matches Some(level) ==> level <= limit) by {
            assert(shorter[i] == steps[i]);
        }
        newest_buckets_are_limited(buckets, shorter, limit);
        assert(steps[steps.len() - 1] == steps.last());
    }
}

/// Until a bucket is replaced, its level still counts: with no more rotations
/// than buckets behind it, the newest level keeps the maximum up.
pub proof fn evidence_lasts_until_replaced(buckets: Seq<u32>, steps: Seq<Option<u32>>)
    requires
        buckets.len() == MATCH_HISTORY_BUCKET_COUNT,
        rotations(steps) < MATCH_HISTORY_BUCKET_COUNT,
    ensures
        highest(replayed(buckets, steps)) >= buckets.last(),
{
    newest_bucket_moves_back(buckets, steps);
    highest_is_the_maximum(replayed(buckets, steps));
}

proof fn newest_bucket_moves_back(buckets: Seq<u32>, steps: Seq<Option<u32>>)
    requires
        buckets.len() == MATCH_HISTORY_BUCKET_COUNT,
        rotations(steps) < MATCH_HISTORY_BUCKET_COUNT,
    ensures
        replayed(buckets, steps).len() == MATCH_HISTORY_BUCKET_COUNT,
        replayed(buckets, steps)[MATCH_HISTORY_BUCKET_COUNT - 1 - rotations(steps)]
            >= buckets.last(),
    decreases steps.len(),
{
    if steps.len() > 0 {
        newest_bucket_moves_back(buckets, steps.drop_last());
    }
}

/// A history has thirty-one buckets, so that with buckets of a tenth of a second
/// it always covers the last three seconds in full. Noting raises the newest
/// bucket alone, and a rotation makes every bucket one older.
pub proof fn buckets_are_noted_and_rotated(buckets: Seq<u32>, level: u32, i: int)
    requires
        buckets.len() == MATCH_HISTORY_BUCKET_COUNT,
        0 <= i < 30,
    ensures
        MATCH_HISTORY_BUCKET_COUNT == 31,
        noted(buckets, level).len() == 31,
        noted(buckets, level)[i] == buckets[i],
        noted(buckets, level)[30] == (if level > buckets[30] {
            level
        } else {
            buckets[30]
        }),
        rotated(buckets).len() == 31,
        rotated(buckets)[i] == buckets[i + 1],
        rotated(buckets)[30] == 0,
        silent_buckets().len() == 31,
        silent_buckets()[i] == 0,
        silent_buckets()[30] == 0,
{
}

} // verus!
