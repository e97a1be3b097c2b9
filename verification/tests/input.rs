use window_mux::events::WindowEventKind;
use window_mux::geometry::{Point, Rect};
use window_mux::input::InputHandler;

#[test]
fn tracks_cursor_position() {
    let mut input = InputHandler::new();
    assert_eq!(*input.get_mouse_absolute(), None);

    input.handle_event(&WindowEventKind::CursorMoved(Point { x: 30, y: 40 }));
    assert_eq!(*input.get_mouse_absolute(), Some(Point { x: 30, y: 40 }));

    input.handle_event(&WindowEventKind::MouseLeftPressed);
    assert_eq!(*input.get_mouse_absolute(), Some(Point { x: 30, y: 40 }));

    input.handle_event(&WindowEventKind::CursorLeft);
    assert_eq!(*input.get_mouse_absolute(), None);
}

#[test]
fn relative_position_inside_viewport() {
    let mut input = InputHandler::new();
    input.handle_event(&WindowEventKind::CursorMoved(Point { x: 30, y: 40 }));

    let viewport = Rect::new(10, 10, 100, 100);
    assert_eq!(
        input.get_mouse_relative(viewport),
        Some(Point { x: 20, y: 30 })
    );

    let elsewhere = Rect::new(200, 200, 50, 50);
    assert_eq!(input.get_mouse_relative(elsewhere), None);
}

#[test]
fn relative_position_without_cursor() {
    let input = InputHandler::new();
    assert_eq!(input.get_mouse_relative(Rect::new(0, 0, 10, 10)), None);
}
