//! The pointer as the frame loop remembers it between frames.

use vstd::prelude::*;

verus! {

/// A button of the pointer, as a window event names it.
#[derive(Clone, Copy, Debug, PartialEq, Eq, Structural)]
pub enum MouseButton {
    Left,
    Right,
    Middle,
    /// Any further button; the frame loop does not track these.
    Other,
}

/// Whether a button went down or came up.
#[derive(Clone, Copy, Debug, PartialEq, Eq, Structural)]
pub enum ElementState {
    Pressed,
    Released,
}

/// Position of the pointer in logical pixels, and which of the left, right
/// and middle buttons are held, in that order.
#[derive(Clone, Copy, Debug, Eq)]
pub struct MouseState {
    pub pos: (i32, i32),
    pub pressed: (bool, bool, bool),
}

impl MouseState {
    /// The state before any event: pointer at the origin, no button held.
    pub open spec fn spec_initial() -> MouseState {
        MouseState { pos: (0i32, 0i32), pressed: (false, false, false) }
    }

    /// This state with `button` set to held exactly when `state` is
    /// `Pressed`. A button other than left, right or middle changes nothing.
    pub open spec fn spec_with_button(self, button: MouseButton, state: ElementState) -> MouseState {
        let down = state == ElementState::Pressed;
        match button {
            MouseButton::Left => MouseState {
                pos: self.pos,
                pressed: (down, self.pressed.1, self.pressed.2),
            },
            MouseButton::Right => MouseState {
                pos: self.pos,
                pressed: (self.pressed.0, down, self.pressed.2),
            },
            MouseButton::Middle => MouseState {
                pos: self.pos,
                pressed: (self.pressed.0, self.pressed.1, down),
            },
            MouseButton::Other => self,
        }
    }

    /// The held flags as the overlay takes them: left, right, middle, and
    /// two further slots that are never held.
    pub open spec fn spec_buttons_down(self) -> Seq<bool> {
        seq![self.pressed.0, self.pressed.1, self.pressed.2, false, false]
    }

    /// Records a press or release of `button`.
    pub fn set_button(&mut self, button: MouseButton, state: ElementState)
        ensures
            *final(self) == old(self).spec_with_button(button, state),
    {
        let down = match state {
            ElementState::Pressed => true,
            ElementState::Released => false,
        };
        match button {
            MouseButton::Left => {
                self.pressed.0 = down;
            },
            MouseButton::Right => {
                self.pressed.1 = down;
            },
            MouseButton::Middle => {
                self.pressed.2 = down;
            },
            MouseButton::Other => {},
        }
    }

    /// Records that the pointer moved to `(x, y)`; the buttons stay as they
    /// were.
    pub fn set_pos(&mut self, x: i32, y: i32)
        ensures
            final(self).pos == (x, y),
            final(self).pressed == old(self).pressed,
    {
        self.pos = (x, y);
    }

    /// The button array for the overlay's next frame.
    pub fn buttons_down(&self) -> (down: [bool; 5])
        ensures
            down@ == self.spec_buttons_down(),
    {
        let down = [self.pressed.0, self.pressed.1, self.pressed.2, false, false];
        assert(down@ =~= self.spec_buttons_down());
        down
    }
}

impl PartialEq for MouseState {
    fn eq(&self, other: &MouseState) -> (same: bool) {
        self.pos.0 == other.pos.0 && self.pos.1 == other.pos.1 && self.pressed.0
            == other.pressed.0 && self.pressed.1 == other.pressed.1 && self.pressed.2
            == other.pressed.2
    }
}

impl vstd::std_specs::cmp::PartialEqSpecImpl for MouseState {
    open spec fn obeys_eq_spec() -> bool {
        true
    }

    open spec fn eq_spec(&self, other: &MouseState) -> bool {
        self.pos == other.pos && self.pressed == other.pressed
    }
}

impl Default for MouseState {
    fn default() -> (s: MouseState)
        ensures
            s == MouseState::spec_initial(),
    {
        MouseState { pos: (0, 0), pressed: (false, false, false) }
    }
}

} // verus!
