//! What every panel offers to the orchestrator.

use vstd::prelude::*;
use crate::action::Action;
use crate::keymap::Keymap;
use crate::Event;

verus! {

/// A panel: it is shown raw events and broadcast commands, and may answer
/// each with one command of its own.
pub trait Component {
    /// The panel's invariant.
    spec fn ready(&self) -> bool;

    /// Shows the panel a raw event, with the key bindings in force.
    fn handle_events(&mut self, keymap: &Keymap, event: Option<Event>) -> (reply: Option<Action>)
        requires
            old(self).ready(),
        ensures
            final(self).ready(),
    ;

    /// Hands the panel a broadcast command.
    fn update(&mut self, action: Action) -> (reply: Option<Action>)
        requires
            old(self).ready(),
        ensures
            final(self).ready(),
    ;
}

} // verus!
