//! Interface modes, panel focus and the kind of work a panel's sliders trigger.

use vstd::prelude::*;

verus! {

/// Which mode the interface is in.
#[derive(Debug, Clone, Copy, PartialEq, Eq, Structural)]
pub enum AppMode {
    Normal,
    FilePicker,
    Saving,
    Help,
}

/// Which panel has keyboard focus.
#[derive(Debug, Clone, Copy, PartialEq, Eq, Structural)]
pub enum PanelFocus {
    WorldSliders,
    EffectsSliders,
    Master,
    EqBands,
    Transport,
}

/// What a changed control asks of the rest of the program.
#[derive(Debug, Clone, Copy, PartialEq, Eq, Structural)]
pub enum Trigger {
    /// The vocoder parameters changed: a full resynthesis is due.
    Resynthesize,
    /// Only the effects chain changed: the cached vocoder output is reused.
    ReapplyEffects,
    /// The output gain changed: it is applied live in the output callback.
    LiveGain,
}

impl PanelFocus {
    /// Position of the panel in the focus cycle.
    pub open spec fn ordinal(self) -> int {
        match self {
            PanelFocus::WorldSliders => 0,
            PanelFocus::EffectsSliders => 1,
            PanelFocus::Master => 2,
            PanelFocus::EqBands => 3,
            PanelFocus::Transport => 4,
        }
    }

    /// The panel that follows `self` in the focus cycle.
    pub open spec fn successor(self) -> PanelFocus {
        match self {
            PanelFocus::WorldSliders => PanelFocus::EffectsSliders,
            PanelFocus::EffectsSliders => PanelFocus::Master,
            PanelFocus::Master => PanelFocus::EqBands,
            PanelFocus::EqBands => PanelFocus::Transport,
            PanelFocus::Transport => PanelFocus::WorldSliders,
        }
    }

    /// What adjusting a slider of this panel triggers, if anything.
    pub open spec fn trigger_of(self) -> Option<Trigger> {
        match self {
            PanelFocus::WorldSliders => Some(Trigger::Resynthesize),
            PanelFocus::EffectsSliders => Some(Trigger::ReapplyEffects),
            PanelFocus::Master => Some(Trigger::LiveGain),
            PanelFocus::EqBands => Some(Trigger::ReapplyEffects),
            PanelFocus::Transport => None,
        }
    }

    /// Cycle to the next panel.
    pub fn next(self) -> (r: Self)
        ensures
            r == self.successor(),
            r.ordinal() == (self.ordinal() + 1) % 5,
    {
        match self {
            PanelFocus::WorldSliders => PanelFocus::EffectsSliders,
            PanelFocus::EffectsSliders => PanelFocus::Master,
            PanelFocus::Master => PanelFocus::EqBands,
            PanelFocus::EqBands => PanelFocus::Transport,
            PanelFocus::Transport => PanelFocus::WorldSliders,
        }
    }

    /// The work that a slider change in this panel asks for. The transport
    /// panel has no sliders and triggers nothing.
    pub fn slider_trigger(self) -> (r: Option<Trigger>)
        ensures
            r == self.trigger_of(),
    {
        match self {
            PanelFocus::WorldSliders => Some(Trigger::Resynthesize),
            PanelFocus::EffectsSliders => Some(Trigger::ReapplyEffects),
            PanelFocus::Master => Some(Trigger::LiveGain),
            PanelFocus::EqBands => Some(Trigger::ReapplyEffects),
            PanelFocus::Transport => None,
        }
    }
}

/// The focus cycle visits all five panels and then returns to where it
/// started.
pub proof fn lemma_focus_cycle(p: PanelFocus)
    ensures
        p.successor().successor().successor().successor().successor() == p,
        p.successor() != p,
{
}

} // verus!
