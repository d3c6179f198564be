//! What a window event does to the state that the frame loop carries.

use vstd::prelude::*;
use crate::mouse::{ElementState, MouseButton, MouseState};

verus! {

/// A window event, reduced to what the frame loop reads of it.
#[derive(Clone, Copy, Debug, PartialEq, Eq, Structural)]
pub enum WindowEvent {
    /// The user asked for the window to be closed.
    CloseRequested,
    /// The pointer moved; the position is in logical pixels.
    CursorMoved { x: i32, y: i32 },
    /// A button of the pointer went down or came up.
    MouseInput { state: ElementState, button: MouseButton },
    /// Anything else; the frame loop ignores it.
    Other,
}

/// What the frame loop carries from one frame to the next.
#[derive(Clone, Copy, Debug, Eq)]
pub struct FrameInput {
    pub mouse: MouseState,
    /// Set once the window was asked to close; the loop ends on it.
    pub closed: bool,
}

impl FrameInput {
    /// The state a frame loop starts from: pointer at rest, window open.
    pub open spec fn spec_initial() -> FrameInput {
        FrameInput { mouse: MouseState::spec_initial(), closed: false }
    }

    /// The state that follows this one when `event` arrives.
    pub open spec fn spec_after(self, event: WindowEvent) -> FrameInput {
        match event {
            WindowEvent::CloseRequested => FrameInput { mouse: self.mouse, closed: true },
            WindowEvent::CursorMoved { x, y } => FrameInput {
                mouse: MouseState { pos: (x, y), pressed: self.mouse.pressed },
                closed: self.closed,
            },
            WindowEvent::MouseInput { state, button } => FrameInput {
                mouse: self.mouse.spec_with_button(button, state),
                closed: self.closed,
            },
            WindowEvent::Other => self,
        }
    }

    /// The state a frame loop starts from.
    pub fn new() -> (s: FrameInput)
        ensures
            s == FrameInput::spec_initial(),
    {
        FrameInput { mouse: MouseState::default(), closed: false }
    }

    /// Takes in one window event.
    pub fn handle_event(&mut self, event: WindowEvent)
        ensures
            *final(self) == old(self).spec_after(event),
    {
        match event {
            WindowEvent::CloseRequested => {
                self.closed = true;
            },
            WindowEvent::CursorMoved { x, y } => {
                self.mouse.set_pos(x, y);
            },
            WindowEvent::MouseInput { state, button } => {
                self.mouse.set_button(button, state);
            },
            WindowEvent::Other => {},
        }
    }
}

impl PartialEq for FrameInput {
    fn eq(&self, other: &FrameInput) -> (same: bool) {
        self.mouse == other.mouse && self.closed == other.closed
    }
}

impl vstd::std_specs::cmp::PartialEqSpecImpl for FrameInput {
    open spec fn obeys_eq_spec() -> bool {
        true
    }

    open spec fn eq_spec(&self, other: &FrameInput) -> bool {
        self.mouse == other.mouse && self.closed == other.closed
    }
}

/// A close request is never taken back: whatever arrives afterwards, the
/// window stays closed.
pub proof fn lemma_closed_is_kept(s: FrameInput, event: WindowEvent)
    requires
        s.closed,
    ensures
        s.spec_after(event).closed,
{
}

/// Only a pointer move changes the position, and it changes nothing else of
/// the pointer.
pub proof fn lemma_position_follows_moves(s: FrameInput, event: WindowEvent)
    ensures
        event matches WindowEvent::CursorMoved { x, y } ==> s.spec_after(event).mouse.pos == (x, y)
            && s.spec_after(event).mouse.pressed == s.mouse.pressed,
        !(event is CursorMoved) ==> s.spec_after(event).mouse.pos == s.mouse.pos,
{
}

} // verus!
