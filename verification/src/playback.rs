//! The play/pause switch: a boolean flag the external driver consults before
//! invoking a step. The flag carries no other engine state; toggling it is
//! idempotent in pairs and never touches the point collection.

use vstd::prelude::*;

verus! {

/// Whether the driver should keep advancing the automaton. Starts playing.
#[derive(Clone, Copy, Debug, PartialEq, Eq, Structural)]
pub struct AutomataState {
    pub playing: bool,
}

impl Default for AutomataState {
    /// A fresh automaton is playing.
    fn default() -> (r: AutomataState)
        ensures
            r.playing,
    {
        AutomataState { playing: true }
    }
}

impl AutomataState {
    /// Creates the switch in its initial, playing state.
    pub fn new() -> (r: AutomataState)
        ensures
            r.playing,
    {
        AutomataState { playing: true }
    }

    /// Reports whether the driver should invoke a step this tick.
    pub fn is_playing(&self) -> (r: bool)
        ensures
            r == self.playing,
    {
        self.playing
    }

    /// Flips the switch; two toggles restore the old value.
    pub fn toggle(&mut self)
        ensures
            final(self).playing == !old(self).playing,
    {
        self.playing = !self.playing;
    }
}

} // verus!
