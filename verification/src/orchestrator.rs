//! The orchestrator's visible state and how results are folded into it.
//!
//! Once per tick the orchestrator drains the worker's results, checks the
//! debounce timers and dispatches what the latest input asked for. It never
//! blocks on the worker or on the output callback. What it decides is stated
//! here; exchanging buffers and building streams is carried out by its
//! caller. `A` is an audio buffer.

use vstd::prelude::*;
use crate::audio::AudioShape;
use crate::debounce::Debounce;
use crate::mode::Trigger;
use crate::reconcile::{reconcile_position, reconciled_spec, rescale_position, rescaled_spec};
use crate::worker::ProcessingResult;

verus! {

/// A buffer together with its shape.
#[derive(Debug, Clone, PartialEq)]
pub struct Held<A> {
    pub audio: A,
    pub shape: AudioShape,
}

/// The state that the orchestrator keeps between ticks.
#[derive(Debug, Clone, PartialEq)]
pub struct Orchestrator<A> {
    /// The last buffer that the worker produced: the "B" side.
    pub processed: Option<Held<A>>,
    /// The mono baseline of the loaded file: the "A" side.
    pub original: Option<Held<A>>,
    /// Whether the listener is on the original.
    pub on_original: bool,
    /// The shape of the buffer under the output callback, once a file is
    /// loaded.
    pub active: Option<AudioShape>,
    /// The worker's latest progress text.
    pub progress: Option<String>,
    /// The latest notice for the listener.
    pub notice: Option<String>,
    /// The debounce timers.
    pub debounce: Debounce,
}

/// What the caller does after a result was folded in.
#[derive(Debug, Clone, PartialEq)]
pub enum Reaction<A> {
    /// Nothing.
    Idle,
    /// Send a resynthesis request with the current slider values, at once.
    Resynthesize,
    /// Exchange the running stream's buffer for the processed one and store
    /// this position in the same critical section.
    HotSwap { position: usize },
    /// Build a new stream around this buffer, at this position, and hand the
    /// buffer back through `adopt` once the stream runs.
    Rebuild { audio: Held<A>, position: usize },
    /// The result concerns the file picker: it is handed back untouched.
    Forward(ProcessingResult<A>),
}

/// The channel count that a position was counted against: that of the
/// active buffer, or the new buffer's own where none is active.
pub open spec fn counted_channels(active: Option<AudioShape>, shape: AudioShape) -> u16 {
    match active {
        Some(current) => current.channels,
        None => shape.channels,
    }
}

/// The shape of the active buffer after `shape` took its place: unknown as
/// long as no file is loaded.
pub open spec fn replaced_shape(active: Option<AudioShape>, shape: AudioShape) -> Option<
    AudioShape,
> {
    match active {
        Some(_) => Some(shape),
        None => None,
    }
}

impl<A> Orchestrator<A> {
    /// The state after `result` was folded in, and the reaction to it.
    ///
    /// `shape` is the shape of the buffer that the result carries,
    /// `stream_running` says whether an output stream exists, and `position`
    /// is the playback position when the result is taken.
    pub open spec fn folded(
        self,
        result: ProcessingResult<A>,
        shape: AudioShape,
        stream_running: bool,
        position: usize,
    ) -> (Orchestrator<A>, Reaction<A>) {
        match result {
            ProcessingResult::AnalysisDone(audio) => (
                Orchestrator { progress: None, original: Some(Held { audio, shape }), ..self },
                Reaction::Resynthesize,
            ),
            ProcessingResult::Status(text) => (
                Orchestrator { progress: Some(text), ..self },
                Reaction::Idle,
            ),
            ProcessingResult::SynthesisDone(audio) => {
                let held = Held { audio, shape };
                let target = reconciled_spec(
                    position as int,
                    counted_channels(self.active, shape) as int,
                    shape.channels as int,
                    shape.sample_count as int,
                ) as usize;
                if self.on_original {
                    (
                        Orchestrator {
                            progress: None,
                            notice: None,
                            processed: Some(held),
                            ..self
                        },
                        Reaction::Idle,
                    )
                } else if stream_running {
                    (
                        Orchestrator {
                            progress: None,
                            notice: None,
                            processed: Some(held),
                            active: replaced_shape(self.active, shape),
                            ..self
                        },
                        Reaction::HotSwap { position: target },
                    )
                } else {
                    (
                        Orchestrator {
                            progress: None,
                            notice: None,
                            active: replaced_shape(self.active, shape),
                            ..self
                        },
                        Reaction::Rebuild { audio: held, position: target },
                    )
                }
            },
            other => (self, Reaction::Forward(other)),
        }
    }

    /// The state after a toggle between original and processed, and the
    /// position to hot-swap at. The toggle takes place only where both
    /// buffers exist and a stream runs; otherwise nothing changes.
    pub open spec fn toggled(self, stream_running: bool, position: usize, playing_len: usize) -> (
        Orchestrator<A>,
        Option<usize>,
    ) {
        if self.processed is Some && self.original is Some && stream_running {
            let target = if self.on_original {
                self.processed->0.shape
            } else {
                self.original->0.shape
            };
            (
                Orchestrator {
                    on_original: !self.on_original,
                    active: replaced_shape(self.active, target),
                    ..self
                },
                Some(
                    rescaled_spec(
                        position as int,
                        playing_len as int,
                        target.sample_count as int,
                    ) as usize,
                ),
            )
        } else {
            (self, None)
        }
    }

    /// The state before any file is loaded.
    pub fn new(debounce: Debounce) -> (o: Self)
        ensures
            o == (Orchestrator::<A> {
                processed: None,
                original: None,
                on_original: false,
                active: None,
                progress: None,
                notice: None,
                debounce,
            }),
    {
        Orchestrator {
            processed: None,
            original: None,
            on_original: false,
            active: None,
            progress: None,
            notice: None,
            debounce,
        }
    }

    /// A file was loaded and plays: the listener is on the processed side,
    /// the previous file's baseline is gone, and no timer of the previous
    /// file is left running.
    pub fn file_loaded(&mut self, audio: Held<A>)
        ensures
            *final(self) == (Orchestrator {
                processed: Some(audio),
                original: None,
                on_original: false,
                active: Some(audio.shape),
                notice: None,
                debounce: Debounce {
                    resynth_due: None,
                    effects_due: None,
                    ..old(self).debounce
                },
                ..*old(self)
            }),
    {
        self.active = Some(audio.shape);
        self.processed = Some(audio);
        self.original = None;
        self.on_original = false;
        self.notice = None;
        self.debounce.cancel();
    }

    /// Folds one result of the worker into the state.
    pub fn on_result(
        &mut self,
        result: ProcessingResult<A>,
        shape: AudioShape,
        stream_running: bool,
        position: usize,
    ) -> (reaction: Reaction<A>)
        ensures
            (*final(self), reaction) == old(self).folded(result, shape, stream_running, position),
            reaction matches Reaction::HotSwap { position: p } ==> p <= shape.sample_count,
            reaction matches Reaction::Rebuild { position: p, .. } ==> p <= shape.sample_count,
    {
        match result {
            ProcessingResult::AnalysisDone(audio) => {
                self.progress = None;
                self.original = Some(Held { audio, shape });
                Reaction::Resynthesize
            },
            ProcessingResult::Status(text) => {
                self.progress = Some(text);
                Reaction::Idle
            },
            ProcessingResult::SynthesisDone(audio) => {
                let held = Held { audio, shape };
                self.progress = None;
                self.notice = None;
                if self.on_original {
                    self.processed = Some(held);
                    Reaction::Idle
                } else {
                    let counted: u16 = match self.active {
                        Some(current) => current.channels,
                        None => shape.channels,
                    };
                    let target = reconcile_position(
                        position,
                        counted,
                        shape.channels,
                        shape.sample_count,
                    );
                    match self.active {
                        Some(_) => {
                            self.active = Some(shape);
                        },
                        None => {},
                    }
                    if stream_running {
                        self.processed = Some(held);
                        Reaction::HotSwap { position: target }
                    } else {
                        Reaction::Rebuild { audio: held, position: target }
                    }
                }
            },
            ProcessingResult::AudioReady(audio, path) => Reaction::Forward(
                ProcessingResult::AudioReady(audio, path),
            ),
            ProcessingResult::DirectoryListing(prefix, entries) => Reaction::Forward(
                ProcessingResult::DirectoryListing(prefix, entries),
            ),
            ProcessingResult::AudioPrecheckDone(path) => Reaction::Forward(
                ProcessingResult::AudioPrecheckDone(path),
            ),
            ProcessingResult::AudioPrecheckFailed(path, reason) => Reaction::Forward(
                ProcessingResult::AudioPrecheckFailed(path, reason),
            ),
        }
    }

    /// The stream that a rebuild asked for runs: its buffer is the processed
    /// one from now on.
    pub fn adopt(&mut self, audio: Held<A>)
        ensures
            *final(self) == (Orchestrator { processed: Some(audio), ..*old(self) }),
    {
        self.processed = Some(audio);
    }

    /// Something failed: the listener is told, and every buffer stays as it
    /// is, so that the last good audio keeps playing.
    pub fn report(&mut self, notice: String)
        ensures
            *final(self) == (Orchestrator { notice: Some(notice), ..*old(self) }),
    {
        self.notice = Some(notice);
    }

    /// Toggles between the original and the processed buffer while playback
    /// goes on. Returns the position to hot-swap the other buffer at.
    pub fn toggle_ab(&mut self, stream_running: bool, position: usize, playing_len: usize) -> (swap:
        Option<usize>)
        ensures
            (*final(self), swap) == old(self).toggled(stream_running, position, playing_len),
            swap is Some ==> final(self).listening_to() is Some && swap->0
                <= final(self).listening_to()->0.shape.sample_count,
    {
        if !stream_running {
            return None;
        }
        let target: AudioShape = match (&self.processed, &self.original) {
            (Some(processed), Some(original)) => {
                if self.on_original {
                    processed.shape
                } else {
                    original.shape
                }
            },
            _ => {
                return None;
            },
        };
        self.on_original = !self.on_original;
        match self.active {
            Some(_) => {
                self.active = Some(target);
            },
            None => {},
        }
        Some(rescale_position(position, playing_len, target.sample_count))
    }

    /// The buffer of the side that the listener is on.
    pub open spec fn listening_to(self) -> Option<Held<A>> {
        if self.on_original {
            self.original
        } else {
            self.processed
        }
    }

    /// The buffer that the listener hears, and that an export writes: the
    /// original while on the original, the processed one otherwise.
    pub fn heard(&self) -> (held: Option<&Held<A>>)
        ensures
            match self.listening_to() {
                None => held is None,
                Some(h) => held is Some && *held->0 == h,
            },
    {
        if self.on_original {
            self.original.as_ref()
        } else {
            self.processed.as_ref()
        }
    }

    /// Records a change that the listener made at `now`.
    pub fn on_trigger(&mut self, trigger: Trigger, now: u64)
        ensures
            *final(self) == (Orchestrator {
                debounce: old(self).debounce.requested(trigger, now),
                ..*old(self)
            }),
    {
        self.debounce.request(trigger, now);
    }

    /// Checks the timers at `now` and returns the command to send, if one is
    /// due.
    pub fn tick(&mut self, now: u64) -> (fired: Option<Trigger>)
        ensures
            *final(self) == (Orchestrator {
                debounce: old(self).debounce.polled(now).0,
                ..*old(self)
            }),
            fired == old(self).debounce.polled(now).1,
    {
        self.debounce.poll(now)
    }
}

/// Whatever the worker delivers, a position that the orchestrator hands out
/// for a buffer exchange lies within the buffer that comes in.
pub proof fn lemma_exchange_position_in_range<A>(
    o: Orchestrator<A>,
    result: ProcessingResult<A>,
    shape: AudioShape,
    stream_running: bool,
    position: usize,
)
    ensures
        match o.folded(result, shape, stream_running, position).1 {
            Reaction::HotSwap { position: p } => 0 <= p <= shape.sample_count,
            Reaction::Rebuild { position: p, .. } => 0 <= p <= shape.sample_count,
            _ => true,
        },
{
    crate::reconcile::lemma_swap_position_in_range(
        position as int,
        counted_channels(o.active, shape) as int,
        shape.channels as int,
        0,
        shape.sample_count as int,
    );
}

/// An error never costs a buffer: reporting it leaves both sides and the
/// side the listener is on as they were.
pub proof fn lemma_report_keeps_audio<A>(before: Orchestrator<A>, notice: String)
    ensures
        ({
            let after = Orchestrator { notice: Some(notice), ..before };
            after.listening_to() == before.listening_to() && after.processed == before.processed
                && after.original == before.original
        }),
{
}

} // verus!
