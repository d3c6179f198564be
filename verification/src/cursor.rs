//! Which pointer shape the operating system is asked to show.

use vstd::prelude::*;

verus! {

/// The pointer shape the overlay wants for what lies under the pointer.
#[derive(Clone, Copy, Debug, PartialEq, Eq, Structural)]
pub enum UiCursor {
    /// The overlay wants no pointer shown.
    Hidden,
    Arrow,
    TextInput,
    /// Four-way arrows, for moving something in any direction.
    Move,
    ResizeNS,
    ResizeEW,
    ResizeNESW,
    ResizeNWSE,
    Hand,
}

/// A pointer shape of the operating system.
#[derive(Clone, Copy, Debug, PartialEq, Eq, Structural)]
pub enum OsCursor {
    Arrow,
    Text,
    Move,
    NsResize,
    EwResize,
    NeswResize,
    NwseResize,
    Hand,
}

/// What to do with the operating system's pointer this frame.
#[derive(Clone, Copy, Debug, PartialEq, Eq, Structural)]
pub enum CursorAction {
    /// Hide it.
    Hide,
    /// Show it, in the given shape.
    Show(OsCursor),
}

/// The operating system's shape for each shape the overlay can want, and
/// nothing for `Hidden`.
pub open spec fn spec_os_cursor(cursor: UiCursor) -> Option<OsCursor> {
    match cursor {
        UiCursor::Hidden => None,
        UiCursor::Arrow => Some(OsCursor::Arrow),
        UiCursor::TextInput => Some(OsCursor::Text),
        UiCursor::Move => Some(OsCursor::Move),
        UiCursor::ResizeNS => Some(OsCursor::NsResize),
        UiCursor::ResizeEW => Some(OsCursor::EwResize),
        UiCursor::ResizeNESW => Some(OsCursor::NeswResize),
        UiCursor::ResizeNWSE => Some(OsCursor::NwseResize),
        UiCursor::Hand => Some(OsCursor::Hand),
    }
}

/// The operating system's shape for `cursor`, if it has one.
pub fn os_cursor(cursor: UiCursor) -> (shape: Option<OsCursor>)
    ensures
        shape == spec_os_cursor(cursor),
        shape is None <==> cursor == UiCursor::Hidden,
{
    match cursor {
        UiCursor::Hidden => None,
        UiCursor::Arrow => Some(OsCursor::Arrow),
        UiCursor::TextInput => Some(OsCursor::Text),
        UiCursor::Move => Some(OsCursor::Move),
        UiCursor::ResizeNS => Some(OsCursor::NsResize),
        UiCursor::ResizeEW => Some(OsCursor::EwResize),
        UiCursor::ResizeNESW => Some(OsCursor::NeswResize),
        UiCursor::ResizeNWSE => Some(OsCursor::NwseResize),
        UiCursor::Hand => Some(OsCursor::Hand),
    }
}

/// Decides what happens to the operating system's pointer.
///
/// It is hidden when the overlay draws a pointer of its own
/// (`overlay_draws`) or wants none shown; otherwise it is shown in the
/// shape that matches the one the overlay wants.
pub fn cursor_action(overlay_draws: bool, cursor: UiCursor) -> (action: CursorAction)
    ensures
        action is Hide <==> overlay_draws || cursor == UiCursor::Hidden,
        action matches CursorAction::Show(shape) ==> spec_os_cursor(cursor) == Some(shape),
{
    if overlay_draws {
        CursorAction::Hide
    } else {
        match os_cursor(cursor) {
            Some(shape) => CursorAction::Show(shape),
            None => CursorAction::Hide,
        }
    }
}

/// Distinct shapes of the overlay get distinct shapes of the operating
/// system, so the shape shown tells which one the overlay wanted.
pub proof fn lemma_os_cursor_injective(a: UiCursor, b: UiCursor)
    requires
        spec_os_cursor(a) == spec_os_cursor(b),
    ensures
        a == b,
{
}

} // verus!
