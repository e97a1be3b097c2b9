//! Tracking of the pointer position inside one window, and its conversion
//! into the local coordinates of a component's viewport rectangle.

use vstd::prelude::*;
use crate::events::WindowEventKind;
use crate::geometry::{point_sub, Point, Rect};

verus! {

/// Remembers where the pointer last was inside the window, or nothing
/// once it left.
pub struct InputHandler {
    mouse_position: Option<Point>,
}

impl InputHandler {
    /// The tracked pointer position, if the pointer is inside the window.
    pub closed spec fn spec_mouse(&self) -> Option<Point> {
        self.mouse_position
    }

    /// A handler that has not seen the pointer yet.
    pub fn new() -> (r: InputHandler)
        ensures
            r.spec_mouse() is None,
    {
        InputHandler { mouse_position: None }
    }

    /// The pointer's window coordinates, if it is inside the window.
    pub fn get_mouse_absolute(&self) -> (r: &Option<Point>)
        ensures
            *r == self.spec_mouse(),
    {
        &self.mouse_position
    }

    /// The pointer's position relative to `r`'s origin, if the pointer is
    /// currently inside `r` (edges inclusive); nothing otherwise.
    pub fn get_mouse_relative(&self, r: Rect) -> (rel: Option<Point>)
        requires
            r.size.w <= i32::MAX,
            r.size.h <= i32::MAX,
        ensures
            rel is Some <==> (self.spec_mouse() matches Some(p) && r.spec_inside(p)),
            rel matches Some(q) ==> self.spec_mouse() matches Some(p) && q == point_sub(p, r.pos),
    {
        if let Some(p) = self.mouse_position {
            if r.inside(p) {
                return Some(p.sub(r.pos));
            }
        }
        None
    }

    /// Follows the pointer: a move fixes its position, leaving the window
    /// clears it, and every other event leaves it untouched.
    pub fn handle_event(&mut self, event: &WindowEventKind)
        ensures
            final(self).spec_mouse() == match *event {
                WindowEventKind::CursorMoved(p) => Some(p),
                WindowEventKind::CursorLeft => None::<Point>,
                _ => old(self).spec_mouse(),
            },
    {
        match event {
            WindowEventKind::CursorMoved(p) => {
                self.mouse_position = Some(*p);
            }
            WindowEventKind::CursorLeft => {
                self.mouse_position = None;
            }
            _ => (),
        }
    }
}

} // verus!
