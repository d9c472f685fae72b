//! Sliding mean-square window over the most recent stereo frames.
use vstd::prelude::*;

use crate::double;
use crate::single;

verus! {

/// What a detector holds.
#[verifier::ext_equal]
pub struct Window {
    /// Squared samples of the retained frames, oldest first.
    pub squares: Seq<(u64, u64)>,
    /// Number of frames in a complete window.
    pub capacity: nat,
    /// Running sums of the retained squares.
    pub sum: (u64, u64),
    /// What the running sums lost to rounding.
    pub compensation: (u64, u64),
}

impl Window {
    /// Whether the window spans its full length.
    pub open spec fn complete(self) -> bool {
        self.squares.len() == self.capacity
    }

    /// The frame that leaves when the next one arrives: the oldest of a complete
    /// window, silence before.
    pub open spec fn outgoing(self) -> (u64, u64) {
        if self.complete() {
            self.squares[0]
        } else {
            (double::ZERO, double::ZERO)
        }
    }

    /// The window after one more frame.
    pub open spec fn updated(
        self,
        incoming: (u64, u64),
        sum: (u64, u64),
        compensation: (u64, u64),
    ) -> Window {
        Window {
            squares: if self.complete() {
                self.squares.skip(1).push(incoming)
            } else {
                self.squares.push(incoming)
            },
            capacity: self.capacity,
            sum,
            compensation,
        }
    }

    /// The window without any frame.
    pub open spec fn emptied(self) -> Window {
        Window {
            squares: Seq::empty(),
            capacity: self.capacity,
            sum: (double::ZERO, double::ZERO),
            compensation: (double::ZERO, double::ZERO),
        }
    }
}

/// Stereo-linked sliding mean-square window with constructor-owned storage.
///
/// The caller squares the samples and adds to the compensated running sums; the
/// detector keeps which frames are inside the window.
pub struct RmsDetector {
    samples: Vec<(u64, u64)>,
    sum: (u64, u64),
    compensation: (u64, u64),
    next: usize,
    count: usize,
}

impl View for RmsDetector {
    type V = Window;

    closed spec fn view(&self) -> Window {
        Window {
            squares: if self.count < self.samples@.len() {
                self.samples@.take(self.count as int)
            } else {
                self.samples@.skip(self.next as int) + self.samples@.take(self.next as int)
            },
            capacity: self.samples@.len(),
            sum: self.sum,
            compensation: self.compensation,
        }
    }
}

impl RmsDetector {
    /// The ring's invariant: it fills from the start, and wraps when it is full.
    pub closed spec fn wf(&self) -> bool {
        &&& self.samples@.len() > 0
        &&& self.next < self.samples@.len()
        &&& self.count <= self.samples@.len()
        &&& self.count < self.samples@.len() ==> self.next == self.count
    }

    /// The window never holds more frames than its length.
    pub proof fn window_is_bounded(&self)
        requires
            self.wf(),
        ensures
            self@.squares.len() <= self@.capacity,
            0 < self@.capacity,
    {
    }

    /// Construct an empty window of at least one frame.
    pub fn new(window_frames: usize) -> (result: Self)
        ensures
            result.wf(),
            result@.capacity == (if window_frames == 0 {
                1
            } else {
                window_frames as int
            }),
            result@ == result@.emptied(),
    {
        let frames: usize = if window_frames == 0 {
            1
        } else {
            window_frames
        };
        let samples: Vec<(u64, u64)> = vec![(double::ZERO, double::ZERO); frames];
        let result = RmsDetector {
            samples,
            sum: (double::ZERO, double::ZERO),
            compensation: (double::ZERO, double::ZERO),
            next: 0,
            count: 0,
        };
        assert(result@ =~= result@.emptied());
        result
    }

    /// The frame that leaves when the next one arrives.
    pub fn outgoing(&self) -> (result: (u64, u64))
        requires
            self.wf(),
        ensures
            result == self@.outgoing(),
    {
        if self.count == self.samples.len() {
            self.samples[self.next]
        } else {
            (double::ZERO, double::ZERO)
        }
    }

    /// Take in one frame, with the running sums that the caller advanced by it.
    pub fn update(&mut self, incoming: (u64, u64), sum: (u64, u64), compensation: (u64, u64))
        requires
            old(self).wf(),
        ensures
            final(self).wf(),
            final(self)@ == old(self)@.updated(incoming, sum, compensation),
    {
        let length: usize = self.samples.len();
        self.samples[self.next] = incoming;
        self.sum = sum;
        self.compensation = compensation;
        self.next = if self.next + 1 == length {
            0
        } else {
            self.next + 1
        };
        if self.count < length {
            self.count = self.count + 1;
        }
        assert(self@ =~= old(self)@.updated(incoming, sum, compensation));
    }

    /// The running sums of the retained squares.
    pub fn sum(&self) -> (result: (u64, u64))
        ensures
            result == self@.sum,
    {
        self.sum
    }

    /// What the running sums lost to rounding.
    pub fn compensation(&self) -> (result: (u64, u64))
        ensures
            result == self@.compensation,
    {
        self.compensation
    }

    /// Number of frames inside the window.
    pub fn count(&self) -> (result: usize)
        requires
            self.wf(),
        ensures
            result == self@.squares.len(),
    {
        self.count
    }

    /// Number of frames in a complete window.
    pub fn capacity(&self) -> (result: usize)
        ensures
            result == self@.capacity,
    {
        self.samples.len()
    }

    /// Whether the window spans its full length.
    pub fn complete(&self) -> (result: bool)
        requires
            self.wf(),
        ensures
            result == self@.complete(),
    {
        self.count == self.samples.len()
    }

    /// The level of the window: silence while it is empty, else the root mean
    /// square that the caller took.
    pub fn level(&self, root: u32) -> (result: u32)
        requires
            self.wf(),
        ensures
            result == (if self@.squares.len() == 0 {
                single::ZERO
            } else {
                root
            }),
    {
        if self.count == 0 {
            single::ZERO
        } else {
            root
        }
    }

    /// Empty the window without touching its storage.
    pub fn reset(&mut self)
        requires
            old(self).wf(),
        ensures
            final(self).wf(),
            final(self)@ == old(self)@.emptied(),
    {
        self.sum = (double::ZERO, double::ZERO);
        self.compensation = (double::ZERO, double::ZERO);
        self.next = 0;
        self.count = 0;
        assert(self@ =~= old(self)@.emptied());
    }
}

/// The power that sets the level: that of the louder channel, never negative.
pub fn louder_power(left: u64, right: u64) -> (result: u64)
    ensures
        result == double::larger(double::larger(left, right), double::ZERO),
        !double::nan(left) && !double::nan(right) ==> double::at_most(left, result)
            && double::at_most(right, result) && double::at_most(double::ZERO, result),
        result == left || result == right || result == double::ZERO,
{
    double::max(double::max(left, right), double::ZERO)
}

/// Choose the rounding error of a compensated addition: measured from the sum
/// where the sum is the larger operand, else from the value.
pub fn correction(sum: u64, value: u64, from_sum: u64, from_value: u64) -> (result: u64)
    ensures
        result == (if double::at_most(
            double::magnitude(value) as u64,
            double::magnitude(sum) as u64,
        ) {
            from_sum
        } else {
            from_value
        }),
        !double::nan(sum) && double::magnitude(value) <= double::magnitude(sum) ==> result
            == from_sum,
        double::magnitude(value) > double::magnitude(sum) ==> result == from_value,
{
    if double::less_or_equal(double::abs(value), double::abs(sum)) {
        from_sum
    } else {
        from_value
    }
}

/// The window after a run of frames.
pub open spec fn fed(window: Window, frames: Seq<(u64, u64)>) -> Seq<(u64, u64)>
    decreases frames.len(),
{
    if frames.len() == 0 {
        window.squares
    } else {
        let before = Window { squares: fed(window, frames.drop_last()), ..window };
        before.updated(frames.last(), window.sum, window.compensation).squares
    }
}

/// A window that is fed at least its own length holds exactly the frames that
/// arrived last, whatever it held before.
pub proof fn window_holds_the_latest_frames(window: Window, frames: Seq<(u64, u64)>)
    requires
        window.squares.len() <= window.capacity,
        0 < window.capacity <= frames.len(),
    ensures
        fed(window, frames) == frames.skip(frames.len() - window.capacity),
{
    fed_is_a_suffix(window, frames);
    assert((window.squares + frames).skip(
        window.squares.len() + frames.len() - window.capacity,
    ) =~= frames.skip(frames.len() - window.capacity));
}

proof fn fed_is_a_suffix(window: Window, frames: Seq<(u64, u64)>)
    requires
        window.squares.len() <= window.capacity,
        0 < window.capacity,
    ensures
        ({
            let all = window.squares + frames;
            let kept = if all.len() <= window.capacity {
                all.len()
            } else {
                window.capacity
            };
            fed(window, frames) == all.skip(all.len() - kept)
        }),
    decreases frames.len(),
{
    let all = window.squares + frames;
    if frames.len() == 0 {
        assert(all.skip(0) =~= window.squares);
    } else {
        fed_is_a_suffix(window, frames.drop_last());
        let shorter = window.squares + frames.drop_last();
        assert(all =~= shorter.push(frames.last()));
        let kept = if shorter.len() <= window.capacity {
            shorter.len()
        } else {
            window.capacity
        };
        let tail = shorter.skip(shorter.len() - kept);
        if kept == window.capacity {
            assert(tail.skip(1).push(frames.last()) =~= all.skip(all.len() - kept));
        } else {
            assert(tail.push(frames.last()) =~= all.skip(0));
        }
    }
}

/// A frame joins a window behind all others. A full window gives up its oldest
/// frame for it, which is the one announced as outgoing; before that nothing
/// leaves, and silence is announced. The sums are the ones that were handed in.
pub proof fn a_full_window_gives_up_its_oldest_frame(
    window: Window,
    incoming: (u64, u64),
    sum: (u64, u64),
    compensation: (u64, u64),
)
    requires
        window.squares.len() <= window.capacity,
        0 < window.capacity,
    ensures
        ({
            let after = window.updated(incoming, sum, compensation);
            &&& after.capacity == window.capacity
            &&& after.sum == sum
            &&& after.compensation == compensation
            &&& after.squares.len() <= after.capacity
            &&& window.squares.len() < window.capacity ==> after.squares == window.squares.push(
                incoming,
            ) && window.outgoing() == (0u64, 0u64)
            &&& window.squares.len() == window.capacity ==> seq![window.outgoing()] + after.squares
                == window.squares.push(incoming)
            &&& window.complete() <==> window.squares.len() == window.capacity
        }),
        window.emptied().squares.len() == 0,
        window.emptied().capacity == window.capacity,
        window.emptied().sum == (0u64, 0u64),
        window.emptied().compensation == (0u64, 0u64),
{
    let after = window.updated(incoming, sum, compensation);
    if window.squares.len() == window.capacity {
        assert(seq![window.outgoing()] + after.squares =~= window.squares.push(incoming));
    }
}

} // verus!
