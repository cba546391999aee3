//! The commands that a session takes and what it answers.

use crate::mouse::MouseButton;
use crate::mouse::MouseMode;
use crate::mouse::Point;
use crate::size::Size;
use crate::size::WindowSize;
use vstd::prelude::*;

verus! {

/// A notification of the terminal model or of the loop that reads the
/// process, as far as a session tells them apart.
#[derive(Debug, Clone, PartialEq, Eq)]
pub enum ModelEvent {
    /// The model has new content.
    Wakeup,
    /// The session is to end.
    Exit,
    /// The process has ended with this code.
    ChildExit(i32),
    /// The window title has changed to this text.
    Title(String),
    /// Any other notification.
    Other,
}

/// One request to a session.
#[derive(Debug, Clone)]
pub enum BackendCommand {
    /// Bytes for the process, as typed.
    Write(Vec<u8>),
    /// Scroll back by this many lines; forward if negative.
    Scroll(i32),
    /// A new layout size, a new cell size, or both, in pixels.
    Resize(Option<Size<u32>>, Option<Size<u16>>),
    /// A mouse event on a cell: protocol, button, cell, and whether the
    /// button went down.
    MouseReport(MouseMode, MouseButton, Point, bool),
    /// A notification of the model.
    ProcessAlacrittyEvent(ModelEvent),
}

/// What the caller of a session is to do after a command.
#[derive(Debug, Clone, PartialEq, Eq)]
pub enum Action {
    /// Nothing.
    Ignore,
    /// Draw the snapshot again.
    Redraw,
    /// Set the window title to this text.
    ChangeTitle(String),
    /// End the session.
    Shutdown,
}

/// What the shell process is owed after a command. The session states it;
/// the owner of the channel to the process carries it out.
#[derive(Debug, Clone, PartialEq, Eq)]
pub enum PtyRequest {
    /// Nothing.
    Idle,
    /// Write these bytes to the process.
    Input(Vec<u8>),
    /// Tell the process that its terminal has this size.
    Resize(WindowSize),
    /// End the loop that reads the process, and with it the process.
    Shutdown,
}

/// The answer to a command.
#[derive(Debug, Clone, PartialEq, Eq)]
pub struct Outcome {
    pub action: Action,
    pub request: PtyRequest,
}

/// The action that answers a notification: new content asks for a redraw,
/// the end of the session or of the process for a shutdown, a new title for
/// the change of title, and anything else for nothing.
pub open spec fn action_of(event: ModelEvent) -> Action {
    match event {
        ModelEvent::Wakeup => Action::Redraw,
        ModelEvent::Exit => Action::Shutdown,
        ModelEvent::ChildExit(_) => Action::Shutdown,
        ModelEvent::Title(title) => Action::ChangeTitle(title),
        ModelEvent::Other => Action::Ignore,
    }
}

impl Action {
    /// The action that answers a notification.
    pub fn for_event(event: ModelEvent) -> (action: Action)
        ensures
            action == action_of(event),
    {
        match event {
            ModelEvent::Wakeup => Action::Redraw,
            ModelEvent::Exit => Action::Shutdown,
            ModelEvent::ChildExit(_) => Action::Shutdown,
            ModelEvent::Title(title) => Action::ChangeTitle(title),
            ModelEvent::Other => Action::Ignore,
        }
    }
}

} // verus!
