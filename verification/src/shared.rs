//! The playback state that the output callback shares with the rest of the
//! program.
//!
//! The flags and the position are atomics: the callback loads them with
//! acquire ordering and every writer stores with release ordering, so the
//! callback never sees a torn combination. What another thread stores between
//! two operations cannot be known here, so these methods promise nothing
//! about the values they read; what they compute from a value once read is
//! stated by the functions of the `playback` module that they call.

use std::sync::atomic::{AtomicBool, AtomicU32, AtomicUsize, Ordering};
use std::sync::Arc;
use vstd::prelude::*;
use crate::playback::{requested_position, seek_target, swap_position, toggled};

verus! {

/// The bit pattern of the gain 1.0 as a 32-bit float.
pub const UNITY_GAIN_BITS: u32 = 0x3f80_0000;

/// Playback state shared between the controlling thread and the output
/// callback. It outlives buffer swaps: replacing the buffer resets none of
/// it.
#[derive(Debug)]
pub struct PlaybackState {
    /// Whether audio is playing rather than paused.
    pub playing: Arc<AtomicBool>,
    /// The current position in the interleaved buffer, in samples.
    pub position: Arc<AtomicUsize>,
    /// The live gain, a linear multiplier, stored as the bit pattern of a
    /// 32-bit float. The callback applies it to every sample it converts.
    pub live_gain: Arc<AtomicU32>,
    /// Whether playback starts again at the beginning when it reaches the end.
    pub loop_enabled: Arc<AtomicBool>,
}

impl PlaybackState {
    /// A paused state at position 0, at unity gain, not looping.
    #[must_use]
    pub fn new() -> Self {
        PlaybackState {
            playing: Arc::new(AtomicBool::new(false)),
            position: Arc::new(AtomicUsize::new(0)),
            live_gain: Arc::new(AtomicU32::new(UNITY_GAIN_BITS)),
            loop_enabled: Arc::new(AtomicBool::new(false)),
        }
    }

    /// Toggles between playing and paused in one atomic step, and returns the
    /// new state. The state that the step found is known only to the atomic;
    /// `toggled` states what is returned for each.
    pub fn toggle_playing(&self) -> bool {
        let was = self.playing.fetch_xor(true, Ordering::Release);
        toggled(was)
    }

    /// Seeks by a signed number of samples, clamped into `[0, max_samples]`.
    pub fn seek_by_samples(&self, offset: isize, max_samples: usize) {
        let current = self.position.load(Ordering::Acquire);
        let target = seek_target(current, offset, max_samples);
        self.position.store(target, Ordering::Release);
    }

    /// Stores the position that goes with a buffer of `new_len` samples. The
    /// caller holds the buffer's write lock, so that the callback never meets
    /// the new buffer with a position computed against the old one.
    pub fn settle_position(&self, requested: Option<usize>, new_len: usize) -> (stored: usize)
        ensures
            stored <= new_len,
            requested is Some ==> stored == requested_position(requested->0, new_len),
    {
        let current = self.position.load(Ordering::Acquire);
        let target = swap_position(current, requested, new_len);
        self.position.store(target, Ordering::Release);
        target
    }
}

} // verus!
