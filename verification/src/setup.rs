//! The window visibility controller: closing the main window hides it.

use vstd::prelude::*;
use crate::shell::Action;

verus! {

/// An event on the main window, by its kind.
#[derive(Clone, Copy, Debug, PartialEq, Eq, Structural)]
pub enum WindowEvent {
    Resized,
    Moved,
    /// The user asked for the window to be closed. Left alone, the host
    /// destroys the window.
    CloseRequested,
    Destroyed,
    Focused,
    ScaleFactorChanged,
    DragDrop,
    ThemeChanged,
    /// Any kind that the host knows and this crate does not.
    Other,
}

/// What the controller answers to `event`: a close request is suppressed and
/// the window hidden in its place; nothing else is acted on.
pub open spec fn window_actions(event: WindowEvent) -> Seq<Action> {
    if event == WindowEvent::CloseRequested {
        seq![Action::PreventClose, Action::Hide]
    } else {
        seq![]
    }
}

/// Handles an event on the main window.
pub fn on_window_event(event: &WindowEvent) -> (actions: Vec<Action>)
    ensures
        actions@ == window_actions(*event),
{
    match event {
        WindowEvent::CloseRequested => vec![Action::PreventClose, Action::Hide],
        _ => Vec::new(),
    }
}

} // verus!
