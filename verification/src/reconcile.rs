//! Reconciling the playback position with a new buffer.
//!
//! When the worker delivers a buffer, or the listener toggles between the
//! original and the processed one, the buffer under the output callback
//! changes while it plays. The position was counted against the old buffer,
//! so it is recomputed for the new one before the two are exchanged.

use vstd::prelude::*;
use vstd::arithmetic::div_mod::lemma_fundamental_div_mod;

verus! {

/// The smaller of two integers.
pub open spec fn at_most(value: int, limit: int) -> int {
    if value > limit {
        limit
    } else {
        value
    }
}

/// The position after a change of channel count: the same frame in the new
/// layout, clamped to the new buffer. Where the channel count stays, or
/// either count is zero, the position is kept.
pub open spec fn remap_spec(position: int, old_channels: int, new_channels: int, new_len: int)
    -> int {
    if old_channels != new_channels && old_channels > 0 && new_channels > 0 {
        at_most((position / old_channels) * new_channels, new_len)
    } else {
        position
    }
}

/// The position that goes with a newly produced buffer: remapped for its
/// channel count, then clamped to its length.
pub open spec fn reconciled_spec(position: int, old_channels: int, new_channels: int, new_len: int)
    -> int {
    at_most(remap_spec(position, old_channels, new_channels, new_len), new_len)
}

/// Computes the position that goes with a newly produced buffer.
pub fn reconcile_position(position: usize, old_channels: u16, new_channels: u16, new_len: usize)
    -> (target: usize)
    ensures
        target == reconciled_spec(
            position as int,
            old_channels as int,
            new_channels as int,
            new_len as int,
        ),
        target <= new_len,
{
    if old_channels != new_channels && old_channels > 0 && new_channels > 0 {
        let frame: u128 = (position / (old_channels as usize)) as u128;
        let width: u128 = new_channels as u128;
        assert(frame * width <= u128::MAX) by (nonlinear_arith)
            requires
                frame <= 0xffff_ffff_ffff_ffff,
                width <= 0xffff,
        ;
        let scaled: u128 = frame * width;
        if scaled > new_len as u128 {
            new_len
        } else {
            scaled as usize
        }
    } else if position > new_len {
        new_len
    } else {
        position
    }
}

/// `n / d` rounded to the nearest integer, halves rounded up.
pub open spec fn round_div(n: int, d: int) -> int {
    if 2 * (n % d) >= d {
        n / d + 1
    } else {
        n / d
    }
}

/// The position after a toggle between two buffers: where they differ in
/// length, the same fraction of the way through the new one, rounded and
/// clamped to its length; where they do not, the position itself, clamped.
pub open spec fn rescaled_spec(position: int, old_len: int, new_len: int) -> int {
    if old_len == new_len {
        at_most(position, new_len)
    } else if old_len <= 0 {
        0
    } else {
        at_most(round_div(position * new_len, old_len), new_len)
    }
}

/// Computes the position after a toggle between two buffers.
pub fn rescale_position(position: usize, old_len: usize, new_len: usize) -> (target: usize)
    ensures
        target == rescaled_spec(position as int, old_len as int, new_len as int),
        target <= new_len,
{
    if old_len == new_len {
        if position > new_len {
            new_len
        } else {
            position
        }
    } else if old_len == 0 {
        0
    } else {
        let wide_position: u128 = position as u128;
        let wide_len: u128 = new_len as u128;
        assert(wide_position * wide_len <= u128::MAX) by (nonlinear_arith)
            requires
                wide_position <= 0xffff_ffff_ffff_ffff,
                wide_len <= 0xffff_ffff_ffff_ffff,
        ;
        let product: u128 = wide_position * wide_len;
        let divisor: u128 = old_len as u128;
        let quotient: u128 = product / divisor;
        let remainder: u128 = product % divisor;
        if quotient >= wide_len {
            new_len
        } else if remainder >= divisor - remainder {
            (quotient + 1) as usize
        } else {
            quotient as usize
        }
    }
}

/// What the orchestrator does with a buffer that the worker delivered.
#[derive(Debug, Clone, Copy, PartialEq, Eq, Structural)]
pub enum BufferUpdate {
    /// The listener is on the original: the new buffer is only stored.
    StoreOnly,
    /// A stream is running: the buffer is exchanged under the write lock and
    /// the position is stored in the same critical section.
    HotSwap { position: usize },
    /// No stream is running: a new one is built around the shared state,
    /// which keeps its flags.
    Rebuild { position: usize },
}

impl BufferUpdate {
    /// The position that the update stores, if it stores one.
    pub open spec fn stored_position(self) -> Option<usize> {
        match self {
            BufferUpdate::StoreOnly => None,
            BufferUpdate::HotSwap { position } => Some(position),
            BufferUpdate::Rebuild { position } => Some(position),
        }
    }
}

/// The update that a delivered buffer calls for.
pub open spec fn synthesis_update_spec(
    on_original: bool,
    stream_running: bool,
    position: int,
    old_channels: int,
    new_channels: int,
    new_len: int,
) -> BufferUpdate {
    let target = reconciled_spec(position, old_channels, new_channels, new_len) as usize;
    if on_original {
        BufferUpdate::StoreOnly
    } else if stream_running {
        BufferUpdate::HotSwap { position: target }
    } else {
        BufferUpdate::Rebuild { position: target }
    }
}

/// Decides what to do with a buffer of `new_len` samples in `new_channels`
/// channels that the worker delivered, while the position stands at
/// `position` in a buffer of `old_channels` channels.
pub fn plan_synthesis_done(
    on_original: bool,
    stream_running: bool,
    position: usize,
    old_channels: u16,
    new_channels: u16,
    new_len: usize,
) -> (update: BufferUpdate)
    ensures
        update == synthesis_update_spec(
            on_original,
            stream_running,
            position as int,
            old_channels as int,
            new_channels as int,
            new_len as int,
        ),
        update.stored_position() is Some ==> update.stored_position()->0 <= new_len,
{
    if on_original {
        BufferUpdate::StoreOnly
    } else {
        let target = reconcile_position(position, old_channels, new_channels, new_len);
        if stream_running {
            BufferUpdate::HotSwap { position: target }
        } else {
            BufferUpdate::Rebuild { position: target }
        }
    }
}

/// Decides a toggle between the original and the processed buffer. Without
/// a running stream there is nothing to exchange; with one, the buffers are
/// hot-swapped at the rescaled position.
pub fn plan_toggle(stream_running: bool, position: usize, old_len: usize, new_len: usize) -> (swap:
    Option<usize>)
    ensures
        swap == if stream_running {
            Some(rescaled_spec(position as int, old_len as int, new_len as int) as usize)
        } else {
            None
        },
        swap is Some ==> swap->0 <= new_len,
{
    if stream_running {
        Some(rescale_position(position, old_len, new_len))
    } else {
        None
    }
}

/// Every position that accompanies a buffer exchange lies inside the new
/// buffer or at its end.
pub proof fn lemma_swap_position_in_range(
    position: int,
    old_channels: int,
    new_channels: int,
    old_len: int,
    new_len: int,
)
    requires
        0 <= position,
        0 <= old_channels,
        0 <= new_channels,
        0 <= old_len,
        0 <= new_len,
    ensures
        0 <= reconciled_spec(position, old_channels, new_channels, new_len) <= new_len,
        0 <= rescaled_spec(position, old_len, new_len) <= new_len,
{
    if old_channels != new_channels && old_channels > 0 && new_channels > 0 {
        assert(0 <= (position / old_channels) * new_channels) by (nonlinear_arith)
            requires
                0 <= position,
                0 < old_channels,
                0 < new_channels,
        ;
    }
    if old_len != new_len && old_len > 0 {
        let n = position * new_len;
        assert(0 <= n) by (nonlinear_arith)
            requires
                n == position * new_len,
                0 <= position,
                0 <= new_len,
        ;
        assert(0 <= n / old_len) by (nonlinear_arith)
            requires
                0 <= n,
                0 < old_len,
        ;
    }
}

/// Rounding picks the nearest integer: the rounded quotient, multiplied
/// back, is within half a divisor of the dividend.
pub proof fn lemma_round_div_is_nearest(n: int, d: int)
    requires
        0 <= n,
        0 < d,
    ensures
        2 * (round_div(n, d) * d - n) <= d,
        2 * (n - round_div(n, d) * d) < d,
{
    lemma_fundamental_div_mod(n, d);
    let q = n / d;
    let r = n % d;
    assert(n == d * q + r);
    assert(0 <= r < d);
    assert((q + 1) * d == q * d + d) by (nonlinear_arith);
    assert(d * q == q * d) by (nonlinear_arith);
}

/// A position at the end of the old buffer lands at the end of the new one,
/// and a position at its start stays at the start.
pub proof fn lemma_rescale_keeps_ends(old_len: int, new_len: int)
    requires
        0 < old_len,
        0 <= new_len,
    ensures
        rescaled_spec(0, old_len, new_len) == 0,
        rescaled_spec(old_len, old_len, new_len) == new_len,
{
    if old_len != new_len {
        assert(0 * new_len == 0);
        assert(0int / old_len == 0 && 0int % old_len == 0) by (nonlinear_arith)
            requires
                0 < old_len,
        ;
        let n = old_len * new_len;
        assert(n / old_len == new_len && n % old_len == 0) by (nonlinear_arith)
            requires
                n == old_len * new_len,
                0 < old_len,
                0 <= new_len,
        ;
    }
}

} // verus!
