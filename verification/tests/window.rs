use window_mux::events::{CanvasOp, Key, SurfaceErrorKind, WindowEventKind};
use window_mux::geometry::{Point, Size};
use window_mux::window::{DrawingWindow, WindowLifeStatus};

fn fresh(w: u32, h: u32) -> DrawingWindow {
    DrawingWindow::new(Size { w, h })
}

#[test]
fn close_event_defers_to_update() {
    let mut w = fresh(800, 600);
    let resp = w.event_handler(WindowEventKind::CloseRequested);
    assert_eq!(resp.canvas_op, None);
    assert!(!resp.schedule_redraw);
    // Not dead yet: the event only records intent.
    assert!(w.close);

    // Exactly one update reports Dead...
    let first = w.update();
    assert_eq!(first.status, WindowLifeStatus::Dead);
    assert!(first.child.is_none());

    // ...and the intent is consumed: the next update reports Alive.
    let second = w.update();
    assert_eq!(second.status, WindowLifeStatus::Alive);
}

#[test]
fn degenerate_resize_skipped_without_retry() {
    let mut w = fresh(800, 600);
    w.event_handler(WindowEventKind::Resized(Size { w: 0, h: 400 }));
    let first = w.update();
    assert_eq!(first.status, WindowLifeStatus::Alive);
    assert_eq!(first.reconfigure, None);
    assert_eq!(w.size, Size { w: 800, h: 600 });
    assert!(!w.resized);

    // No repeated attempt on the next tick either.
    let second = w.update();
    assert_eq!(second.reconfigure, None);
    assert_eq!(w.size, Size { w: 800, h: 600 });
}

#[test]
fn degenerate_resize_zero_height() {
    let mut w = fresh(800, 600);
    w.event_handler(WindowEventKind::Resized(Size { w: 400, h: 0 }));
    let outcome = w.update();
    assert_eq!(outcome.status, WindowLifeStatus::Alive);
    assert_eq!(outcome.reconfigure, None);
    assert_eq!(w.size, Size { w: 800, h: 600 });
}

#[test]
fn valid_resize_reconfigures_surface() {
    let mut w = fresh(800, 600);
    w.event_handler(WindowEventKind::Resized(Size { w: 1024, h: 768 }));
    let outcome = w.update();
    assert_eq!(outcome.status, WindowLifeStatus::Alive);
    assert_eq!(outcome.reconfigure, Some(Size { w: 1024, h: 768 }));
    assert_eq!(w.size, Size { w: 1024, h: 768 });
}

#[test]
fn resize_applies_even_when_closing() {
    let mut w = fresh(800, 600);
    w.event_handler(WindowEventKind::Resized(Size { w: 10, h: 10 }));
    w.event_handler(WindowEventKind::CloseRequested);
    let outcome = w.update();
    assert_eq!(outcome.status, WindowLifeStatus::Dead);
    assert_eq!(outcome.reconfigure, Some(Size { w: 10, h: 10 }));
}

#[test]
fn clear_key_clears_canvas_and_redraws() {
    let mut w = fresh(100, 100);
    let resp = w.event_handler(WindowEventKind::KeyReleased(Key::C));
    assert_eq!(resp.canvas_op, Some(CanvasOp::Clear));
    assert!(resp.schedule_redraw);
}

#[test]
fn other_key_is_ignored() {
    let mut w = fresh(100, 100);
    let resp = w.event_handler(WindowEventKind::KeyReleased(Key::Other));
    assert_eq!(resp.canvas_op, None);
    assert!(!resp.schedule_redraw);
}

#[test]
fn mouse_events_forward_and_redraw() {
    let mut w = fresh(100, 100);

    let down = w.event_handler(WindowEventKind::MouseLeftPressed);
    assert_eq!(down.canvas_op, Some(CanvasOp::MouseDown));
    assert!(down.schedule_redraw);

    let up = w.event_handler(WindowEventKind::MouseLeftReleased);
    assert_eq!(up.canvas_op, Some(CanvasOp::MouseUp));
    assert!(up.schedule_redraw);

    let moved = w.event_handler(WindowEventKind::CursorMoved(Point { x: 3, y: 4 }));
    assert_eq!(moved.canvas_op, Some(CanvasOp::MousePos(Point { x: 3, y: 4 })));
    assert!(moved.schedule_redraw);
}

#[test]
fn surface_lost_is_implicit_resize() {
    let mut w = fresh(640, 480);
    w.note_surface_error(SurfaceErrorKind::Lost);
    assert!(w.resized);
    assert!(!w.close);
    // The last known size is re-applied on the next update.
    let outcome = w.update();
    assert_eq!(outcome.status, WindowLifeStatus::Alive);
    assert_eq!(outcome.reconfigure, Some(Size { w: 640, h: 480 }));
}

#[test]
fn surface_out_of_memory_retires_window() {
    let mut w = fresh(640, 480);
    w.note_surface_error(SurfaceErrorKind::OutOfMemory);
    assert!(w.close);
    let outcome = w.update();
    assert_eq!(outcome.status, WindowLifeStatus::Dead);
}

#[test]
fn other_surface_error_skips_frame_only() {
    let mut w = fresh(640, 480);
    let before = w;
    w.note_surface_error(SurfaceErrorKind::Other);
    assert_eq!(w, before);
}

#[test]
fn render_viewport_covers_surface() {
    let w = fresh(321, 99);
    let v = w.render_viewport();
    assert_eq!(v.pos, Point { x: 0, y: 0 });
    assert_eq!(v.size, Size { w: 321, h: 99 });
}
