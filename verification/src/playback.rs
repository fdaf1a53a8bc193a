//! Position arithmetic of the playback engine.
//!
//! A buffer holds interleaved samples; a position counts samples, not
//! frames. The output callback walks the buffer one frame at a time and
//! routes source channels onto device channels; seeking and buffer swaps
//! move the position from outside. Everything here is a function of plain
//! integers, so that the callback itself has nothing left to decide.

use vstd::prelude::*;

verus! {

/// The play state after a toggle, given the state that the toggle found:
/// playing becomes paused and paused becomes playing.
pub fn toggled(was_playing: bool) -> (now_playing: bool)
    ensures
        now_playing == !was_playing,
{
    !was_playing
}

/// Where a seek by `offset` samples lands: the sum, clamped into
/// `[0, max_samples]`.
pub open spec fn seek_target_spec(current: int, offset: int, max_samples: int) -> int {
    let raw = current + offset;
    if raw < 0 {
        0
    } else if raw > max_samples {
        max_samples
    } else {
        raw
    }
}

/// The position after a seek by a signed number of samples.
pub fn seek_target(current: usize, offset: isize, max_samples: usize) -> (target: usize)
    ensures
        target == seek_target_spec(current as int, offset as int, max_samples as int),
        target <= max_samples,
{
    if offset >= 0 {
        let forward: usize = offset as usize;
        if current >= max_samples {
            max_samples
        } else if forward >= max_samples - current {
            max_samples
        } else {
            current + forward
        }
    } else {
        let back: usize = if offset == isize::MIN {
            (isize::MAX as usize) + 1
        } else {
            (-offset) as usize
        };
        let landed: usize = if back >= current {
            0
        } else {
            current - back
        };
        if landed > max_samples {
            max_samples
        } else {
            landed
        }
    }
}

/// The position that a buffer swap leaves behind: the position supplied with
/// the swap, or else the current one, clamped to the new buffer's length.
pub open spec fn swap_position_spec(current: int, requested: Option<usize>, new_len: int) -> int {
    let wanted = match requested {
        Some(p) => p as int,
        None => current,
    };
    if wanted > new_len {
        new_len
    } else {
        wanted
    }
}

/// The position that a swap leaves behind when one was supplied with it.
pub open spec fn requested_position(requested: usize, new_len: usize) -> int {
    swap_position_spec(0, Some(requested), new_len as int)
}

/// The position to store, in the same critical section, when the buffer is
/// replaced by one of `new_len` samples.
pub fn swap_position(current: usize, requested: Option<usize>, new_len: usize) -> (position: usize)
    ensures
        position == swap_position_spec(current as int, requested, new_len as int),
        position <= new_len,
{
    let wanted: usize = match requested {
        Some(p) => p,
        None => current,
    };
    if wanted > new_len {
        new_len
    } else {
        wanted
    }
}

/// Whether the callback renders audio at all. It emits silence, and leaves
/// the position alone, while playback is paused, while the buffer lock is
/// held elsewhere, and when either side has no channels.
pub open spec fn renders(
    playing: bool,
    lock_acquired: bool,
    buffer_channels: u16,
    device_channels: u16,
) -> bool {
    playing && lock_acquired && buffer_channels > 0 && device_channels > 0
}

/// Decides whether one invocation of the callback renders audio.
pub fn should_render(
    playing: bool,
    lock_acquired: bool,
    buffer_channels: u16,
    device_channels: u16,
) -> (b: bool)
    ensures
        b == renders(playing, lock_acquired, buffer_channels, device_channels),
{
    playing && lock_acquired && buffer_channels > 0 && device_channels > 0
}

/// What the callback does for one output frame.
#[derive(Debug, Clone, Copy, PartialEq, Eq, Structural)]
pub struct FrameStep {
    /// Where the frame's samples start in the buffer; `None` for a frame of
    /// silence.
    pub source: Option<usize>,
    /// The position after the frame.
    pub next: usize,
}

/// The frame read at `position` and the position after it.
///
/// Inside the buffer the frame at `position` is read and the position moves
/// on by one frame. At or past the end, a looping buffer that holds samples
/// starts again at 0; otherwise the frame is silent and the position stays.
pub open spec fn frame_step_spec(position: int, total: int, channels: int, looping: bool) -> (
    Option<int>,
    int,
) {
    if channels <= 0 {
        (None, position)
    } else if position >= total {
        if looping && total > 0 {
            (Some(0), channels)
        } else {
            (None, position)
        }
    } else {
        (Some(position), position + channels)
    }
}

/// Decides one output frame.
pub fn frame_step(position: usize, total: usize, channels: u16, looping: bool) -> (step: FrameStep)
    requires
        total + channels <= usize::MAX,
    ensures
        match frame_step_spec(position as int, total as int, channels as int, looping).0 {
            None => step.source is None,
            Some(start) => step.source == Some(start as usize) && start < total,
        },
        step.next == frame_step_spec(position as int, total as int, channels as int, looping).1,
{
    let width: usize = channels as usize;
    if width == 0 {
        FrameStep { source: None, next: position }
    } else if position >= total {
        if looping && total > 0 {
            FrameStep { source: Some(0), next: width }
        } else {
            FrameStep { source: None, next: position }
        }
    } else {
        FrameStep { source: Some(position), next: position + width }
    }
}

/// The buffer index that feeds one device channel of a frame: device channel
/// `i` reads source channel `i mod channels`, and reads silence where that
/// falls past the end of the buffer.
pub open spec fn slot_source_spec(start: int, device_channel: int, channels: int, total: int)
    -> Option<int> {
    if channels <= 0 {
        None
    } else {
        let index = start + device_channel % channels;
        if index < total {
            Some(index)
        } else {
            None
        }
    }
}

/// Routes one device channel of the frame that starts at `start`.
pub fn slot_source(start: usize, device_channel: usize, channels: u16, total: usize) -> (index:
    Option<usize>)
    ensures
        match slot_source_spec(start as int, device_channel as int, channels as int, total as int) {
            None => index is None,
            Some(i) => index == Some(i as usize) && i < total,
        },
{
    let width: usize = channels as usize;
    if width == 0 {
        None
    } else if start >= total {
        None
    } else {
        let lane: usize = device_channel % width;
        if lane < total - start {
            Some(start + lane)
        } else {
            None
        }
    }
}

/// The position after the callback has produced `frames` frames.
pub open spec fn position_after(
    position: int,
    total: int,
    channels: int,
    looping: bool,
    frames: nat,
) -> int
    decreases frames,
{
    if frames == 0 {
        position
    } else {
        position_after(
            frame_step_spec(position, total, channels, looping).1,
            total,
            channels,
            looping,
            (frames - 1) as nat,
        )
    }
}

/// The position that the callback stores after producing `frames` frames.
pub fn advance(position: usize, total: usize, channels: u16, looping: bool, frames: usize) -> (end:
    usize)
    requires
        total + channels <= usize::MAX,
    ensures
        end == position_after(position as int, total as int, channels as int, looping, frames as nat),
        end <= total + channels || end == position,
{
    let mut at: usize = position;
    let mut done: usize = 0;
    while done < frames
        invariant
            done <= frames,
            total + channels <= usize::MAX,
            at <= total + channels || at == position,
            position_after(position as int, total as int, channels as int, looping, frames as nat)
                == position_after(
                at as int,
                total as int,
                channels as int,
                looping,
                (frames - done) as nat,
            ),
        decreases frames - done,
    {
        let step = frame_step(at, total, channels, looping);
        at = step.next;
        done = done + 1;
    }
    at
}

/// With looping off, a position at or past the end of the buffer stays where
/// it is, and every frame is silent.
pub proof fn lemma_end_of_stream_holds(position: int, total: int, channels: int, frames: nat)
    requires
        position >= total,
    ensures
        frame_step_spec(position, total, channels, false).0 is None,
        position_after(position, total, channels, false, frames) == position,
    decreases frames,
{
    if frames > 0 {
        lemma_end_of_stream_holds(position, total, channels, (frames - 1) as nat);
    }
}

/// With looping on, a position at or past the end of a buffer that holds
/// samples wraps: the next frame is read from the start of the buffer, and
/// the position after it is one frame in.
pub proof fn lemma_loop_wraps(position: int, total: int, channels: int)
    requires
        position >= total,
        total > 0,
        channels > 0,
    ensures
        frame_step_spec(position, total, channels, true) == (Some(0int), channels),
        slot_source_spec(0, 0, channels, total) == Some(0int),
{
    assert(0int % channels == 0) by (nonlinear_arith)
        requires
            channels > 0,
    ;
}

/// The callback never leaves the position more than one frame past the end
/// of the buffer, and never reads outside it.
pub proof fn lemma_position_stays_near_buffer(
    position: int,
    total: int,
    channels: int,
    looping: bool,
    frames: nat,
)
    requires
        0 <= position <= total + channels,
        0 <= total,
        0 < channels,
    ensures
        0 <= position_after(position, total, channels, looping, frames) <= total + channels,
    decreases frames,
{
    if frames > 0 {
        let next = frame_step_spec(position, total, channels, looping).1;
        lemma_position_stays_near_buffer(next, total, channels, looping, (frames - 1) as nat);
    }
}

/// A mono buffer fans out: every device channel of a frame reads the same
/// sample.
pub proof fn lemma_mono_fans_out(start: int, device_channel: int, total: int)
    requires
        0 <= device_channel,
    ensures
        slot_source_spec(start, device_channel, 1, total) == slot_source_spec(start, 0, 1, total),
{
}

} // verus!
