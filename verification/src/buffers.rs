//! Checks on the memory that a host hands over for one block.
//!
//! Addresses are plain integers here; nothing is read through them.
use vstd::prelude::*;

verus! {

/// Alignment of a sample in bytes.
pub const SAMPLE_ALIGN: usize = 4;

/// Size of a sample in bytes.
pub const SAMPLE_SIZE: usize = 4;

/// Size and alignment of an element in host memory.
#[derive(Clone, Copy, Debug, PartialEq, Eq, Structural)]
pub struct Layout {
    /// Alignment in bytes.
    pub align: usize,
    /// Size in bytes.
    pub size: usize,
}

/// Addresses of the four channels of a stereo block.
#[derive(Clone, Copy, Debug, PartialEq, Eq, Structural)]
pub struct StereoAddresses {
    /// Left input channel.
    pub input_left: usize,
    /// Right input channel.
    pub input_right: usize,
    /// Left output channel.
    pub output_left: usize,
    /// Right output channel.
    pub output_right: usize,
}

/// The bytes of `count` elements from an address on, where that is an aligned
/// stretch of memory: its first byte, and the one behind its last.
pub open spec fn stretch(address: usize, layout: Layout, count: usize) -> Option<(usize, usize)> {
    let end = address + count * layout.size;
    if address != 0 && address as int % layout.align as int == 0 && end <= usize::MAX {
        Some((address, end as usize))
    } else {
        None
    }
}

/// The layout of a sample.
pub open spec fn sample_layout() -> Layout {
    Layout { align: SAMPLE_ALIGN, size: SAMPLE_SIZE }
}

/// Compute [`stretch`].
pub fn address_range(address: usize, layout: Layout, count: usize) -> (result: Option<
    (usize, usize),
>)
    requires
        layout.align > 0,
    ensures
        result == stretch(address, layout, count),
{
    if address == 0 || address % layout.align != 0 {
        return None;
    }
    proof {
        assert(count * layout.size >= 0) by (nonlinear_arith);
    }
    match count.checked_mul(layout.size) {
        Some(bytes) => match address.checked_add(bytes) {
            Some(end) => Some((address, end)),
            None => None,
        },
        None => None,
    }
}

/// Whether two stretches overlap.
pub open spec fn overlap(first: (usize, usize), second: (usize, usize)) -> bool {
    first.0 < second.1 && second.0 < first.1
}

/// Compute [`overlap`].
pub fn ranges_overlap(first: (usize, usize), second: (usize, usize)) -> (result: bool)
    ensures
        result == overlap(first, second),
{
    first.0 < second.1 && second.0 < first.1
}

/// Whether four channels can be processed frame by frame: the two inputs apart,
/// the two outputs apart, no output on the other side's input, and each output
/// either apart from its own input or exactly in place of it.
pub open spec fn separable(a: StereoAddresses, frames: usize) -> bool {
    let input_left = stretch(a.input_left, sample_layout(), frames);
    let input_right = stretch(a.input_right, sample_layout(), frames);
    let output_left = stretch(a.output_left, sample_layout(), frames);
    let output_right = stretch(a.output_right, sample_layout(), frames);
    &&& input_left is Some
    &&& input_right is Some
    &&& output_left is Some
    &&& output_right is Some
    &&& !overlap(input_left->0, input_right->0)
    &&& !overlap(output_left->0, output_right->0)
    &&& !overlap(output_left->0, input_right->0)
    &&& !overlap(output_right->0, input_left->0)
    &&& a.output_left == a.input_left || !overlap(output_left->0, input_left->0)
    &&& a.output_right == a.input_right || !overlap(output_right->0, input_right->0)
}

/// Decide [`separable`].
pub fn validate_stereo_aliases(
    input_left: usize,
    input_right: usize,
    output_left: usize,
    output_right: usize,
    frames: usize,
) -> (result: bool)
    ensures
        result == separable(
            StereoAddresses { input_left, input_right, output_left, output_right },
            frames,
        ),
{
    let layout = Layout { align: SAMPLE_ALIGN, size: SAMPLE_SIZE };
    let input_left_range: (usize, usize) = match address_range(input_left, layout, frames) {
        Some(range) => range,
        None => {
            return false;
        },
    };
    let input_right_range: (usize, usize) = match address_range(input_right, layout, frames) {
        Some(range) => range,
        None => {
            return false;
        },
    };
    let output_left_range: (usize, usize) = match address_range(output_left, layout, frames) {
        Some(range) => range,
        None => {
            return false;
        },
    };
    let output_right_range: (usize, usize) = match address_range(output_right, layout, frames) {
        Some(range) => range,
        None => {
            return false;
        },
    };
    if ranges_overlap(input_left_range, input_right_range) || ranges_overlap(
        output_left_range,
        output_right_range,
    ) || ranges_overlap(output_left_range, input_right_range) || ranges_overlap(
        output_right_range,
        input_left_range,
    ) {
        return false;
    }
    let left_overlap: bool = ranges_overlap(output_left_range, input_left_range);
    let right_overlap: bool = ranges_overlap(output_right_range, input_right_range);
    (!left_overlap || output_left == input_left) && (!right_overlap || output_right == input_right)
}

/// Whether the bus descriptors of a block can be read: one stereo bus in and one
/// out, at plausible addresses.
pub open spec fn buses_plausible(
    input_count: i32,
    output_count: i32,
    inputs: usize,
    outputs: usize,
    layout: Layout,
) -> bool {
    &&& input_count == 1
    &&& output_count == 1
    &&& stretch(inputs, layout, 1) is Some
    &&& stretch(outputs, layout, 1) is Some
}

/// Decide [`buses_plausible`].
pub fn buses_readable(
    input_count: i32,
    output_count: i32,
    inputs: usize,
    outputs: usize,
    layout: Layout,
) -> (result: bool)
    requires
        layout.align > 0,
    ensures
        result == buses_plausible(input_count, output_count, inputs, outputs, layout),
{
    input_count == 1 && output_count == 1 && address_range(inputs, layout, 1).is_some()
        && address_range(outputs, layout, 1).is_some()
}

/// Decide whether the channel list of a bus can be read: two channels, at a
/// plausible address.
pub fn channels_readable(channel_count: i32, channels: usize, layout: Layout) -> (result: bool)
    requires
        layout.align > 0,
    ensures
        result == (channel_count == 2 && stretch(channels, layout, 2) is Some),
{
    channel_count == 2 && address_range(channels, layout, 2).is_some()
}

/// The number of frames of a block whose channels can be processed frame by
/// frame.
pub fn stereo_frames(sample_count: i32, addresses: StereoAddresses) -> (result: Option<usize>)
    ensures
        result == (if sample_count >= 0 && separable(addresses, sample_count as usize) {
            Some(sample_count as usize)
        } else {
            None
        }),
{
    if sample_count < 0 {
        return None;
    }
    let frames: usize = sample_count as usize;
    if validate_stereo_aliases(
        addresses.input_left,
        addresses.input_right,
        addresses.output_left,
        addresses.output_right,
        frames,
    ) {
        Some(frames)
    } else {
        None
    }
}

/// What is left to do for a block that cannot be processed.
#[derive(Clone, Copy, Debug, PartialEq, Eq, Structural)]
pub enum SilenceRequest {
    /// The block is not one that can be silenced.
    Refuse,
    /// There is nothing to silence.
    Done,
    /// Look at the channels of the output bus, for this many frames.
    Inspect(usize),
}

/// Decide how to silence the output of a block, before its bus is read.
pub fn silence_request(
    sample_count: i32,
    single_precision: bool,
    output_count: i32,
    outputs: usize,
    layout: Layout,
) -> (result: SilenceRequest)
    requires
        layout.align > 0,
    ensures
        result == (if sample_count == 0 {
            SilenceRequest::Done
        } else if sample_count > 0 && single_precision && output_count == 1 && stretch(
            outputs,
            layout,
            1,
        ) is Some {
            SilenceRequest::Inspect(sample_count as usize)
        } else {
            SilenceRequest::Refuse
        }),
{
    if sample_count < 0 {
        return SilenceRequest::Refuse;
    }
    if sample_count == 0 {
        return SilenceRequest::Done;
    }
    if !single_precision || output_count != 1 || address_range(outputs, layout, 1).is_none() {
        return SilenceRequest::Refuse;
    }
    SilenceRequest::Inspect(sample_count as usize)
}

/// Decide whether two output channels can be filled: both plausible, and apart.
pub fn silence_channels(left: usize, right: usize, frames: usize) -> (result: bool)
    ensures
        result == ({
            let left_range = stretch(left, sample_layout(), frames);
            let right_range = stretch(right, sample_layout(), frames);
            left_range is Some && right_range is Some && !overlap(left_range->0, right_range->0)
        }),
{
    let layout = Layout { align: SAMPLE_ALIGN, size: SAMPLE_SIZE };
    match (address_range(left, layout, frames), address_range(right, layout, frames)) {
        (Some(left_range), Some(right_range)) => !ranges_overlap(left_range, right_range),
        _ => false,
    }
}

/// Stretches with at least one byte overlap exactly where they share one.
pub proof fn overlapping_stretches_share_a_byte(first: (usize, usize), second: (usize, usize))
    requires
        first.0 < first.1,
        second.0 < second.1,
    ensures
        overlap(first, second) <==> exists|byte: int|
            #![trigger in_stretch(first, byte)]
            in_stretch(first, byte) && in_stretch(second, byte),
{
    if overlap(first, second) {
        let byte = if first.0 < second.0 {
            second.0 as int
        } else {
            first.0 as int
        };
        assert(in_stretch(first, byte) && in_stretch(second, byte));
    }
}

/// Whether a byte lies in a stretch.
pub open spec fn in_stretch(range: (usize, usize), byte: int) -> bool {
    range.0 <= byte < range.1
}

/// Whether two samples, each the `index`th from an address on, share a byte.
pub open spec fn samples_touch(a: usize, i: int, b: usize, j: int) -> bool {
    exists|byte: int|
        #![trigger in_sample(a, i, byte)]
        in_sample(a, i, byte) && in_sample(b, j, byte)
}

/// Whether a byte belongs to the `index`th sample from an address on.
pub open spec fn in_sample(address: usize, index: int, byte: int) -> bool {
    address + 4 * index <= byte < address + 4 * index + 4
}

/// Writing one frame leaves every other frame's input as it was: an output
/// sample touches no input sample but the one of its own channel and frame, and
/// the two outputs of a frame do not touch each other.
pub proof fn writing_a_frame_spares_other_frames(a: StereoAddresses, frames: usize, i: int, j: int)
    requires
        separable(a, frames),
        0 <= i < frames,
        0 <= j < frames,
    ensures
        !samples_touch(a.output_left, i, a.input_right, j),
        !samples_touch(a.output_right, i, a.input_left, j),
        !samples_touch(a.output_left, i, a.output_right, j),
        samples_touch(a.output_left, i, a.input_left, j) ==> i == j,
        samples_touch(a.output_right, i, a.input_right, j) ==> i == j,
{
}

/// A stretch is what its address and its elements make it: refused at the null
/// address, off its alignment, and where it would run past the end of memory.
pub proof fn stretches_are_aligned_and_bounded(address: usize, layout: Layout, count: usize)
    requires
        layout.align > 0,
    ensures
        stretch(address, layout, count) is Some <==> {
            &&& address > 0
            &&& address as int % layout.align as int == 0
            &&& address + count * layout.size <= usize::MAX
        },
        stretch(address, layout, count) matches Some(range) ==> range.0 == address && range.1
            == address + count * layout.size,
        sample_layout().align == 4,
        sample_layout().size == 4,
{
}

/// Whether two channels of some frames share no byte.
pub open spec fn apart(a: usize, b: usize, frames: usize) -> bool {
    a + 4 * frames <= b || b + 4 * frames <= a
}

/// Whether a channel of some frames can lie at an address.
pub open spec fn addressable(a: usize, frames: usize) -> bool {
    a != 0 && a as int % 4 == 0 && a + 4 * frames <= usize::MAX
}

/// Channels are accepted exactly where they can be processed: all addressable,
/// inputs apart, outputs apart, no output on the other side's input, and each
/// output apart from its own input or exactly in place of it.
pub proof fn separate_and_in_place_channels_are_accepted(a: StereoAddresses, frames: usize)
    ensures
        separable(a, frames) <==> {
            &&& addressable(a.input_left, frames)
            &&& addressable(a.input_right, frames)
            &&& addressable(a.output_left, frames)
            &&& addressable(a.output_right, frames)
            &&& apart(a.input_left, a.input_right, frames)
            &&& apart(a.output_left, a.output_right, frames)
            &&& apart(a.output_left, a.input_right, frames)
            &&& apart(a.output_right, a.input_left, frames)
            &&& a.output_left == a.input_left || apart(a.output_left, a.input_left, frames)
            &&& a.output_right == a.input_right || apart(a.output_right, a.input_right, frames)
        },
{
}

/// A block needs one readable bus in each direction.
pub proof fn blocks_need_one_bus_each_way(
    input_count: i32,
    output_count: i32,
    inputs: usize,
    outputs: usize,
    layout: Layout,
)
    requires
        layout.align > 0,
    ensures
        buses_plausible(input_count, output_count, inputs, outputs, layout) <==> {
            &&& input_count == 1
            &&& output_count == 1
            &&& inputs > 0 && inputs as int % layout.align as int == 0 && inputs + layout.size
                <= usize::MAX
            &&& outputs > 0 && outputs as int % layout.align as int == 0 && outputs + layout.size
                <= usize::MAX
        },
{
}

} // verus!
