//! The frame loop's window-event policy.
//!
//! Each iteration of the frame loop drains the window's event queue and
//! decides whether to keep running. The policy is: stop when the window
//! was asked to close, when it was destroyed, or when the escape key was
//! released; every other event is ignored. The application shell maps
//! the windowing library's events onto [`WindowEvent`] and asks
//! [`should_close`] for the decision.

use vstd::prelude::*;

verus! {

/// The keys the frame loop distinguishes.
#[derive(Clone, Copy, Debug, PartialEq, Eq, Structural)]
pub enum Key {
    Escape,
    Other,
}

/// Whether a key was pressed or released.
#[derive(Clone, Copy, Debug, PartialEq, Eq, Structural)]
pub enum KeyState {
    Pressed,
    Released,
}

/// A window event, reduced to what the frame loop reads of it.
#[derive(Clone, Copy, Debug, PartialEq, Eq, Structural)]
pub enum WindowEvent {
    CloseRequested,
    Destroyed,
    KeyboardInput { state: KeyState, key: Option<Key> },
    Other,
}

/// The events on which the frame loop stops.
pub open spec fn spec_should_close(e: WindowEvent) -> bool {
    ||| e is CloseRequested
    ||| e is Destroyed
    ||| e matches WindowEvent::KeyboardInput { state, key }
        && state is Released && key == Some(Key::Escape)
}

/// Decides whether a window event ends the frame loop: a close request,
/// the window's destruction, or the escape key being released.
pub fn should_close(e: &WindowEvent) -> (r: bool)
    ensures
        r == spec_should_close(*e),
{
    match e {
        WindowEvent::CloseRequested => true,
        WindowEvent::Destroyed => true,
        WindowEvent::KeyboardInput { state: KeyState::Released, key: Some(Key::Escape) } => true,
        _ => false,
    }
}

} // verus!
