//! Debouncing of parameter changes.
//!
//! A slider that is being dragged produces a stream of changes; only the
//! last one is worth a job. Each class of change has a grace window. A new
//! change of a class restarts that class's timer, and a timer that runs out
//! fires one command. Time is a count of milliseconds on any monotonic clock.

use vstd::prelude::*;
use crate::mode::Trigger;

verus! {

/// The grace window of a full resynthesis, in milliseconds.
pub const RESYNTH_DEBOUNCE_MS: u64 = 150;

/// The grace window of an effects-only pass, in milliseconds.
pub const EFFECTS_DEBOUNCE_MS: u64 = 80;

/// The two timers and their windows.
#[derive(Debug, Clone, Copy, PartialEq, Eq, Structural)]
pub struct Debounce {
    /// Grace window of a resynthesis.
    pub resynth_window: u64,
    /// Grace window of an effects-only pass.
    pub effects_window: u64,
    /// When the pending resynthesis is due, if one is pending.
    pub resynth_due: Option<u64>,
    /// When the pending effects pass is due, if one is pending.
    pub effects_due: Option<u64>,
}

/// The deadline of a change made at `now`: `now + window`, or the end of
/// time where that does not fit.
pub open spec fn deadline(now: u64, window: u64) -> u64 {
    if now + window > u64::MAX {
        u64::MAX
    } else {
        (now + window) as u64
    }
}

impl Debounce {
    /// The timers after a change that asks for `trigger` at `now`. A gain
    /// change is applied live and starts no timer.
    pub open spec fn requested(self, trigger: Trigger, now: u64) -> Debounce {
        match trigger {
            Trigger::Resynthesize => Debounce {
                resynth_due: Some(deadline(now, self.resynth_window)),
                ..self
            },
            Trigger::ReapplyEffects => Debounce {
                effects_due: Some(deadline(now, self.effects_window)),
                ..self
            },
            Trigger::LiveGain => self,
        }
    }

    /// The timers after a poll at `now`, and the command that the poll
    /// fires. A resynthesis that is due fires and cancels a pending effects
    /// pass, which it includes. Otherwise an effects pass that is due fires.
    pub open spec fn polled(self, now: u64) -> (Debounce, Option<Trigger>) {
        if self.resynth_due is Some && now >= self.resynth_due->0 {
            (Debounce { resynth_due: None, effects_due: None, ..self }, Some(Trigger::Resynthesize))
        } else if self.effects_due is Some && now >= self.effects_due->0 {
            (Debounce { effects_due: None, ..self }, Some(Trigger::ReapplyEffects))
        } else {
            (self, None)
        }
    }

    /// Whether no timer is running.
    pub open spec fn idle(self) -> bool {
        self.resynth_due is None && self.effects_due is None
    }

    /// Timers with the given windows, none running.
    pub fn new(resynth_window: u64, effects_window: u64) -> (d: Self)
        ensures
            d == (Debounce { resynth_window, effects_window, resynth_due: None, effects_due: None }),
    {
        Debounce { resynth_window, effects_window, resynth_due: None, effects_due: None }
    }

    /// Timers with the standard windows, none running.
    pub fn standard() -> (d: Self)
        ensures
            d == (Debounce {
                resynth_window: RESYNTH_DEBOUNCE_MS,
                effects_window: EFFECTS_DEBOUNCE_MS,
                resynth_due: None,
                effects_due: None,
            }),
    {
        Debounce::new(RESYNTH_DEBOUNCE_MS, EFFECTS_DEBOUNCE_MS)
    }

    /// Records a change made at `now`: the timer of its class starts again.
    pub fn request(&mut self, trigger: Trigger, now: u64)
        ensures
            *final(self) == old(self).requested(trigger, now),
    {
        match trigger {
            Trigger::Resynthesize => {
                self.resynth_due = Some(now.saturating_add(self.resynth_window));
            },
            Trigger::ReapplyEffects => {
                self.effects_due = Some(now.saturating_add(self.effects_window));
            },
            Trigger::LiveGain => {},
        }
    }

    /// Checks the timers at `now` and returns the command that is due, if
    /// any.
    pub fn poll(&mut self, now: u64) -> (fired: Option<Trigger>)
        ensures
            (*final(self), fired) == old(self).polled(now),
    {
        match self.resynth_due {
            Some(due) => {
                if now >= due {
                    self.resynth_due = None;
                    self.effects_due = None;
                    return Some(Trigger::Resynthesize);
                }
            },
            None => {},
        }
        match self.effects_due {
            Some(due) => {
                if now >= due {
                    self.effects_due = None;
                    return Some(Trigger::ReapplyEffects);
                }
            },
            None => {},
        }
        None
    }

    /// Stops both timers: a new file was loaded, and a stale request must not
    /// fire before its analysis is done.
    pub fn cancel(&mut self)
        ensures
            *final(self) == (Debounce { resynth_due: None, effects_due: None, ..*old(self) }),
            final(self).idle(),
    {
        self.resynth_due = None;
        self.effects_due = None;
    }
}

/// Two resynthesis requests in a row, the second at `second`, leave one
/// timer running. No poll before `second + window` fires a resynthesis; the
/// first poll at or after it fires exactly one and stops both timers, so that
/// no later poll fires anything.
pub proof fn lemma_debounce_fires_once(d: Debounce, first: u64, second: u64, now: u64, later: u64)
    requires
        first <= second,
        second + d.resynth_window <= u64::MAX,
    ensures
        ({
            let armed = d.requested(Trigger::Resynthesize, first).requested(
                Trigger::Resynthesize,
                second,
            );
            &&& armed.resynth_due == Some((second + d.resynth_window) as u64)
            &&& now < second + d.resynth_window ==> armed.polled(now).1 != Some(
                Trigger::Resynthesize,
            )
            &&& now < second + d.resynth_window && d.effects_due is None ==> armed.polled(now)
                == (armed, None::<Trigger>)
            &&& now >= second + d.resynth_window ==> {
                &&& armed.polled(now).1 == Some(Trigger::Resynthesize)
                &&& armed.polled(now).0.idle()
                &&& armed.polled(now).0.polled(later) == (armed.polled(now).0, None::<Trigger>)
            }
        }),
{
}

/// A pending effects pass never outlives a resynthesis that fires: the
/// resynthesis includes the effects.
pub proof fn lemma_resynthesis_supersedes_effects(d: Debounce, now: u64)
    requires
        d.polled(now).1 == Some(Trigger::Resynthesize),
    ensures
        d.polled(now).0.effects_due is None,
        d.polled(now).0.resynth_due is None,
{
}

/// A timer that is not due does not fire, and polling leaves it running.
pub proof fn lemma_poll_before_deadline(d: Debounce, now: u64)
    requires
        d.resynth_due is Some ==> now < d.resynth_due->0,
        d.effects_due is Some ==> now < d.effects_due->0,
    ensures
        d.polled(now) == (d, None::<Trigger>),
{
}

} // verus!
