//! The canonical event vocabulary delivered to the embedding application.

use vstd::prelude::*;

verus! {

/// Scroll direction of one wheel emission.
#[derive(Clone, Copy, Debug, PartialEq, Eq, Structural)]
pub enum Direction {
    Up,
    Right,
    Down,
    Left,
}

/// A platform-independent input or window occurrence.  Coordinates are in
/// logical units, after the pixel-to-logical conversion.
#[derive(Debug, PartialEq, Eq)]
pub enum UiEvent {
    Quit,
    KeyboardInput(String),
    MouseDragged(u32, u32),
    MousePressed(u32, u32),
    MouseReleased(u32, u32),
    Scroll(Direction, u32, u32),
    FocusLost,
    FocusGained,
}

/// Anything that can receive a canonical event and react.  Implemented by
/// the embedding application; the event is delivered synchronously and is
/// not retained.
pub trait UiEventHandler {
    fn handle_ui_event(&self, event: UiEvent);
}

} // verus!
