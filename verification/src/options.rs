//! The options panel: a frame with three placeholder sections.

use vstd::prelude::*;
use vstd::string::StringExecFns;
use crate::action::Action;
use crate::components::Component;
use crate::keymap::Keymap;
use crate::Event;

verus! {

/// Name of the style that a panel's border is drawn with.
#[derive(Debug, Clone, Copy, PartialEq, Eq, Structural)]
pub enum BorderRole {
    /// The panel has the focus.
    Focused,
    /// The panel does not have the focus.
    Default,
}

/// The border style of a panel, by whether it has the focus.
pub fn border_role(focused: bool) -> (role: BorderRole)
    ensures
        role == (if focused {
            BorderRole::Focused
        } else {
            BorderRole::Default
        }),
{
    if focused {
        BorderRole::Focused
    } else {
        BorderRole::Default
    }
}

/// Height, in rows, of each section of the options panel.
pub const SECTION_HEIGHT: u16 = 3;

/// The panel that will hold the conversion options.
#[derive(Debug, Clone, Copy, PartialEq, Eq, Structural)]
pub struct OptionsPanel {
}

impl OptionsPanel {
    /// The titles of the sections, from top to bottom.
    pub open spec fn section_titles() -> Seq<Seq<char>> {
        seq!["Output Format"@, "Resize Options"@, "Quality/Compression"@]
    }

    /// The options panel.
    pub fn new() -> (panel: Self)
        ensures
            panel == (OptionsPanel {  }),
    {
        OptionsPanel {  }
    }

    /// The titles of the sections, from top to bottom.
    pub fn sections(&self) -> (titles: Vec<String>)
        ensures
            titles@.len() == Self::section_titles().len(),
            forall|i: int| 0 <= i < titles@.len() ==> titles@[i]@ == Self::section_titles()[i],
    {
        let mut titles: Vec<String> = Vec::new();
        titles.push(String::from_str("Output Format"));
        titles.push(String::from_str("Resize Options"));
        titles.push(String::from_str("Quality/Compression"));
        titles
    }
}

impl Default for OptionsPanel {
    fn default() -> (panel: Self)
        ensures
            panel == (OptionsPanel {  }),
    {
        OptionsPanel::new()
    }
}

impl Component for OptionsPanel {
    open spec fn ready(&self) -> bool {
        true
    }

    /// Raw events leave the panel as it is and get no reply.
    fn handle_events(&mut self, keymap: &Keymap, event: Option<Event>) -> (reply: Option<Action>)
        ensures
            reply is None,
            *final(self) == *old(self),
    {
        None
    }

    /// Commands leave the panel as it is and get no reply.
    fn update(&mut self, action: Action) -> (reply: Option<Action>)
        ensures
            reply is None,
            *final(self) == *old(self),
    {
        None
    }
}

} // verus!
