//! The commands that travel from input handling to the panels.

use vstd::prelude::*;
use crate::value::ImageStatus;

verus! {

/// A command: either what a raw input event stands for, or a notification
/// that one part of the program sends to the others.
#[derive(Debug, PartialEq, Eq)]
pub enum Action {
    Tick,
    Render,
    Resize(u16, u16),
    Down,
    Up,
    ShiftUp,
    ShiftDown,
    Select,
    Delete,
    Suspend,
    Resume,
    Quit,
    ClearScreen,
    Error(String),
    UpdateImageStatus { index: usize, status: ImageStatus },
    ClearImages,
    Help,
}

impl Clone for Action {
    fn clone(&self) -> (res: Self)
        ensures
            res == *self,
    {
        match self {
            Action::Tick => Action::Tick,
            Action::Render => Action::Render,
            Action::Resize(width, height) => Action::Resize(*width, *height),
            Action::Down => Action::Down,
            Action::Up => Action::Up,
            Action::ShiftUp => Action::ShiftUp,
            Action::ShiftDown => Action::ShiftDown,
            Action::Select => Action::Select,
            Action::Delete => Action::Delete,
            Action::Suspend => Action::Suspend,
            Action::Resume => Action::Resume,
            Action::Quit => Action::Quit,
            Action::ClearScreen => Action::ClearScreen,
            Action::Error(message) => Action::Error(message.clone()),
            Action::UpdateImageStatus { index, status } => Action::UpdateImageStatus {
                index: *index,
                status: status.clone(),
            },
            Action::ClearImages => Action::ClearImages,
            Action::Help => Action::Help,
        }
    }
}

} // verus!
