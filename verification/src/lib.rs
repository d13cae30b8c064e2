//! Core of a terminal image-batch tool: the command model, the key-chord
//! resolver, the selectable image list and the dispatch loop that ties
//! them together.

use vstd::prelude::*;

pub mod action;
pub mod app;
pub mod components;
pub mod image_ops;
pub mod keymap;
pub mod keys;
pub mod list;
pub mod list_laws;
pub mod list_model;
pub mod options;
pub mod value;

verus! {

/// Operating mode; selects which table of key bindings applies.
#[derive(Debug, Clone, Copy, PartialEq, Eq, Hash, Structural)]
pub enum Mode {
    Home,
}

impl Default for Mode {
    fn default() -> (mode: Self)
        ensures
            mode == Mode::Home,
    {
        Mode::Home
    }
}

/// Which panel currently has input priority.
#[derive(Debug, Clone, Copy, PartialEq, Eq, Structural)]
pub enum Focus {
    ImageList,
    OptionsPanel,
}

/// What the terminal reports.
#[derive(Debug, Clone, Copy, PartialEq, Eq, Structural)]
pub enum Event {
    /// The user asked to leave.
    Quit,
    /// The periodic tick is due.
    Tick,
    /// A frame is due.
    Render,
    /// The terminal now has this width and height.
    Resize(u16, u16),
    /// A key was pressed.
    Key(keys::KeyChord),
}

} // verus!
