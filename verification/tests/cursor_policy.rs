use triangle_demo::cursor::{cursor_action, os_cursor, CursorAction, OsCursor, UiCursor};

const SHAPES: [(UiCursor, OsCursor); 8] = [
    (UiCursor::Arrow, OsCursor::Arrow),
    (UiCursor::TextInput, OsCursor::Text),
    (UiCursor::Move, OsCursor::Move),
    (UiCursor::ResizeNS, OsCursor::NsResize),
    (UiCursor::ResizeEW, OsCursor::EwResize),
    (UiCursor::ResizeNESW, OsCursor::NeswResize),
    (UiCursor::ResizeNWSE, OsCursor::NwseResize),
    (UiCursor::Hand, OsCursor::Hand),
];

#[test]
fn hidden_has_no_os_shape() {
    assert_eq!(os_cursor(UiCursor::Hidden), None);
}

#[test]
fn every_shown_shape_has_its_os_shape() {
    for (ui, os) in SHAPES {
        assert_eq!(os_cursor(ui), Some(os));
    }
}

#[test]
fn os_shapes_are_distinct() {
    for (i, (_, a)) in SHAPES.iter().enumerate() {
        for (j, (_, b)) in SHAPES.iter().enumerate() {
            assert_eq!(i == j, a == b);
        }
    }
}

#[test]
fn overlay_drawn_pointer_hides_os_pointer() {
    assert_eq!(cursor_action(true, UiCursor::Hidden), CursorAction::Hide);
    for (ui, _) in SHAPES {
        assert_eq!(cursor_action(true, ui), CursorAction::Hide);
    }
}

#[test]
fn hidden_shape_hides_os_pointer() {
    assert_eq!(cursor_action(false, UiCursor::Hidden), CursorAction::Hide);
}

#[test]
fn wanted_shape_is_shown() {
    for (ui, os) in SHAPES {
        assert_eq!(cursor_action(false, ui), CursorAction::Show(os));
    }
}

#[test]
fn text_input_shows_text_shape() {
    assert_eq!(cursor_action(false, UiCursor::TextInput), CursorAction::Show(OsCursor::Text));
}
