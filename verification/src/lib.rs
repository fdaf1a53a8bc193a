//! Coordination core of an interactive voice re-synthesis player.
//!
//! Three actors cooperate: a background worker that coalesces expensive
//! jobs, a real-time output callback that walks a shared sample buffer, and
//! an orchestrator that debounces parameter changes and reconciles buffer
//! swaps with the playback position. The decisions each actor takes are
//! stated here as contracts over plain values and proved; the signal
//! processing, decoding and device access they coordinate live outside.

pub mod audio;
pub mod cache;
pub mod debounce;
pub mod editing;
pub mod export;
pub mod handle;
pub mod listing;
pub mod mode;
pub mod navigation;
pub mod orchestrator;
pub mod playback;
pub mod reconcile;
pub mod shared;
pub mod sorting;
pub mod status;
pub mod text;
pub mod vocoder;
pub mod worker;
