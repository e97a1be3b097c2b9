use window_mux::events::WindowEventKind;
use window_mux::geometry::Size;
use window_mux::multiplexer::{Multiplexer, MultiplexerError};
use window_mux::window::{ChildWindow, DrawingWindow};

fn window(w: u32, h: u32) -> DrawingWindow {
    DrawingWindow::new(Size { w, h })
}

#[test]
fn routes_event_to_target_window() {
    let mut mux = Multiplexer::new();
    mux.adopt(1, window(100, 100)).unwrap();
    mux.adopt(2, window(200, 200)).unwrap();

    let resp = mux.route_event(2, WindowEventKind::CloseRequested);
    assert!(resp.is_some());

    // Only window 2 picked up the close intent.
    assert!(!mux.get(1).unwrap().close);
    assert!(mux.get(2).unwrap().close);
}

#[test]
fn unknown_window_id_is_a_no_op() {
    let mut mux = Multiplexer::new();
    mux.adopt(1, window(100, 100)).unwrap();
    let resp = mux.route_event(42, WindowEventKind::CloseRequested);
    assert!(resp.is_none());
    assert_eq!(mux.len(), 1);
    assert!(!mux.get(1).unwrap().close);
}

#[test]
fn tick_updates_every_window_once() {
    let mut mux = Multiplexer::new();
    mux.adopt(1, window(100, 100)).unwrap();
    mux.adopt(2, window(200, 200)).unwrap();
    mux.route_event(1, WindowEventKind::Resized(Size { w: 300, h: 300 }));

    let outcome = mux.tick();
    assert_eq!(outcome.reconfigures, vec![(1, Size { w: 300, h: 300 })]);
    assert_eq!(outcome.removed, Vec::<u64>::new());
    assert!(!outcome.should_exit);
    assert_eq!(mux.get(1).unwrap().size, Size { w: 300, h: 300 });
    assert_eq!(mux.get(2).unwrap().size, Size { w: 200, h: 200 });
}

#[test]
fn tick_removes_dead_after_full_pass() {
    let mut mux = Multiplexer::new();
    mux.adopt(1, window(100, 100)).unwrap();
    mux.adopt(2, window(200, 200)).unwrap();
    mux.adopt(3, window(300, 300)).unwrap();
    mux.route_event(2, WindowEventKind::CloseRequested);

    let outcome = mux.tick();
    assert_eq!(outcome.removed, vec![2]);
    assert!(!outcome.should_exit);
    assert_eq!(mux.len(), 2);
    assert!(mux.contains(1));
    assert!(!mux.contains(2));
    assert!(mux.contains(3));
}

#[test]
fn adopting_colliding_id_is_fatal() {
    let mut mux = Multiplexer::new();
    mux.adopt(7, window(100, 100)).unwrap();
    let r = mux.adopt(7, window(50, 50));
    assert_eq!(r, Err(MultiplexerError::IdCollision));
    assert_eq!(mux.len(), 1);
    assert_eq!(mux.get(7).unwrap().size, Size { w: 100, h: 100 });
}

#[test]
fn retiring_parent_hands_its_id_to_child() {
    let mut mux = Multiplexer::new();
    mux.adopt(7, window(100, 100)).unwrap();
    // The parent retires during this tick...
    mux.route_event(7, WindowEventKind::CloseRequested);
    let outcome = mux.tick();
    assert_eq!(outcome.removed, vec![7]);
    // ...so a child reusing its id is adopted in the same cycle.
    let r = mux.adopt(7, window(64, 64));
    assert_eq!(r, Ok(()));
    assert_eq!(mux.get(7).unwrap().size, Size { w: 64, h: 64 });
}

#[test]
fn adopt_children_applies_buffered_batch() {
    let mut mux = Multiplexer::new();
    mux.adopt(1, window(100, 100)).unwrap();
    let children = vec![
        ChildWindow { id: 2, window: window(20, 20) },
        ChildWindow { id: 3, window: window(30, 30) },
    ];
    assert_eq!(mux.adopt_children(&children), Ok(()));
    assert_eq!(mux.len(), 3);
    assert!(mux.contains(2) && mux.contains(3));
}

#[test]
fn adopt_children_detects_collision_within_batch() {
    let mut mux = Multiplexer::new();
    let children = vec![
        ChildWindow { id: 5, window: window(20, 20) },
        ChildWindow { id: 5, window: window(30, 30) },
    ];
    assert_eq!(
        mux.adopt_children(&children),
        Err(MultiplexerError::IdCollision)
    );
}

#[test]
fn close_then_tick_empties_live_set() {
    // End to end: one window, a close event, one idle tick; the live set
    // empties and the owner is told to exit (with status 0).
    let mut mux = Multiplexer::new();
    mux.adopt(1, window(800, 600)).unwrap();

    let resp = mux.route_event(1, WindowEventKind::CloseRequested);
    assert!(resp.is_some());
    assert_eq!(mux.len(), 1);

    let outcome = mux.tick();
    assert_eq!(outcome.removed, vec![1]);
    assert!(outcome.should_exit);
    assert!(mux.is_empty());
}
