use simple_screenshot_tool::geometry::{PointerPosition, SelectionRectangle};
use simple_screenshot_tool::session::{DragSession, InputEvent, ShellAction};

#[test]
fn rectangle_from_points_is_min_corner_and_abs_size() {
    let p1 = PointerPosition { x: 300, y: 100 };
    let p2 = PointerPosition { x: 100, y: 250 };
    let r = SelectionRectangle::from_points(p1, p2);
    assert_eq!(r, SelectionRectangle { x: 100, y: 100, width: 200, height: 150 });
}

#[test]
fn rectangle_from_points_ignores_press_release_order() {
    let p1 = PointerPosition { x: 17, y: 940 };
    let p2 = PointerPosition { x: 1203, y: 4 };
    assert_eq!(
        SelectionRectangle::from_points(p1, p2),
        SelectionRectangle::from_points(p2, p1)
    );
}

#[test]
fn rectangle_from_equal_points_is_zero_sized() {
    let p = PointerPosition { x: 42, y: 42 };
    let r = SelectionRectangle::from_points(p, p);
    assert_eq!(r, SelectionRectangle { x: 42, y: 42, width: 0, height: 0 });
}

#[test]
fn press_move_move_release_commits_spanned_rectangle() {
    let mut s = DragSession::new();
    assert_eq!(s.handle_event(InputEvent::LeftPress), ShellAction::Continue);
    assert_eq!(
        s.handle_event(InputEvent::PointerMove(PointerPosition { x: 100, y: 100 })),
        ShellAction::Redraw
    );
    assert_eq!(
        s.handle_event(InputEvent::PointerMove(PointerPosition { x: 300, y: 250 })),
        ShellAction::Redraw
    );
    assert_eq!(
        s.handle_event(InputEvent::LeftRelease),
        ShellAction::Finish(Some(SelectionRectangle { x: 100, y: 100, width: 200, height: 150 }))
    );
}

#[test]
fn release_without_any_move_commits_nothing() {
    let mut s = DragSession::new();
    s.handle_event(InputEvent::LeftPress);
    assert_eq!(s.handle_event(InputEvent::LeftRelease), ShellAction::Finish(None));
}

#[test]
fn release_resets_the_session_completely() {
    let mut s = DragSession::new();
    s.handle_event(InputEvent::LeftPress);
    s.handle_event(InputEvent::PointerMove(PointerPosition { x: 5, y: 6 }));
    s.handle_event(InputEvent::PointerMove(PointerPosition { x: 9, y: 2 }));
    s.handle_event(InputEvent::LeftRelease);
    assert!(!s.is_active);
    assert!(s.start.is_none());
    assert!(s.end.is_none());
}

#[test]
fn first_move_sets_start_later_moves_only_end() {
    let mut s = DragSession::new();
    s.handle_event(InputEvent::LeftPress);
    s.handle_event(InputEvent::PointerMove(PointerPosition { x: 10, y: 20 }));
    assert_eq!(s.start, Some(PointerPosition { x: 10, y: 20 }));
    assert_eq!(s.end, Some(PointerPosition { x: 10, y: 20 }));
    s.handle_event(InputEvent::PointerMove(PointerPosition { x: 30, y: 40 }));
    assert_eq!(s.start, Some(PointerPosition { x: 10, y: 20 }));
    assert_eq!(s.end, Some(PointerPosition { x: 30, y: 40 }));
}

#[test]
fn movement_while_idle_is_ignored() {
    let mut s = DragSession::new();
    assert_eq!(
        s.handle_event(InputEvent::PointerMove(PointerPosition { x: 1, y: 1 })),
        ShellAction::Continue
    );
    assert!(!s.is_active);
    assert!(s.start.is_none());
    assert!(s.end.is_none());
}

#[test]
fn close_request_exits_without_capturing() {
    let mut s = DragSession::new();
    s.handle_event(InputEvent::LeftPress);
    s.handle_event(InputEvent::PointerMove(PointerPosition { x: 3, y: 4 }));
    assert_eq!(s.handle_event(InputEvent::CloseRequested), ShellAction::Exit);
}

#[test]
fn current_selection_tracks_recorded_endpoints() {
    let mut s = DragSession::new();
    assert_eq!(s.current_selection(), None);
    s.handle_event(InputEvent::LeftPress);
    assert_eq!(s.current_selection(), None);
    s.handle_event(InputEvent::PointerMove(PointerPosition { x: 8, y: 1 }));
    s.handle_event(InputEvent::PointerMove(PointerPosition { x: 2, y: 7 }));
    assert_eq!(
        s.current_selection(),
        Some(SelectionRectangle { x: 2, y: 1, width: 6, height: 6 })
    );
}
