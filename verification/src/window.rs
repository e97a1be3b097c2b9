//! The per-window lifecycle state machine. A window is Alive until its
//! `update` step observes a pending close intent; close and resize requests
//! only set flags, and `update` is the single authority that turns them into
//! lifecycle transitions and surface reconfigurations.

use vstd::prelude::*;
use crate::geometry::{Point, Rect, Size};
use crate::events::{CanvasOp, EventResponse, Key, SurfaceErrorKind, WindowEventKind};

verus! {

/// The lifecycle state a window reports from its `update` step. A window
/// that reports `Dead` is removed from the multiplexer and dropped.
#[derive(Copy, Clone, Debug, PartialEq, Eq, Structural)]
pub enum WindowLifeStatus {
    Alive,
    Dead,
}

/// A window produced during an `update` step, to be adopted by the
/// multiplexer after the current tick's pass is complete.
#[derive(Copy, Clone, Debug, PartialEq, Eq, Structural)]
pub struct ChildWindow {
    /// The platform identifier of the child's window.
    pub id: u64,
    /// The child's initial state.
    pub window: DrawingWindow,
}

/// What one `update` step asks of its caller: the lifecycle state, an
/// optional child window to adopt, and an optional new size to reconfigure
/// the presentation surface to.
#[derive(Copy, Clone, Debug, PartialEq, Eq, Structural)]
pub struct UpdateOutcome {
    pub status: WindowLifeStatus,
    pub child: Option<ChildWindow>,
    pub reconfigure: Option<Size>,
}

/// The decision state of one drawing window: the size its surface is
/// configured to, the latest size the platform reported, and the pending
/// event flags. The GPU handles the state speaks of (surface, device,
/// queue) live with the platform glue that owns this state machine.
#[derive(Copy, Clone, Debug, PartialEq, Eq, Structural)]
pub struct DrawingWindow {
    /// The drawable size the presentation surface is currently configured to.
    pub size: Size,
    /// The most recent drawable size reported by the platform.
    pub inner_size: Size,
    /// A resize is pending: `update` will reconfigure the surface.
    pub resized: bool,
    /// A close is pending: `update` will report `Dead`.
    pub close: bool,
}

/// A size to which a surface cannot be configured.
pub open spec fn degenerate(s: Size) -> bool {
    s.w == 0 || s.h == 0
}

impl DrawingWindow {
    /// How one event changes the window state and what response it owes:
    /// close and resize requests set flags; key, button and pointer events
    /// forward a command to the drawing component and, where they change
    /// visual state, ask for a scheduled redraw.
    pub open spec fn spec_handle_event(self, e: WindowEventKind) -> (DrawingWindow, EventResponse) {
        match e {
            WindowEventKind::CloseRequested => (
                DrawingWindow { close: true, ..self },
                EventResponse { canvas_op: None, schedule_redraw: false },
            ),
            WindowEventKind::Resized(s) => (
                DrawingWindow { resized: true, inner_size: s, ..self },
                EventResponse { canvas_op: None, schedule_redraw: false },
            ),
            WindowEventKind::KeyReleased(k) => (
                self,
                if k is C {
                    EventResponse { canvas_op: Some(CanvasOp::Clear), schedule_redraw: true }
                } else {
                    EventResponse { canvas_op: None, schedule_redraw: false }
                },
            ),
            WindowEventKind::MouseLeftPressed => (
                self,
                EventResponse { canvas_op: Some(CanvasOp::MouseDown), schedule_redraw: true },
            ),
            WindowEventKind::MouseLeftReleased => (
                self,
                EventResponse { canvas_op: Some(CanvasOp::MouseUp), schedule_redraw: true },
            ),
            WindowEventKind::CursorMoved(p) => (
                self,
                EventResponse { canvas_op: Some(CanvasOp::MousePos(p)), schedule_redraw: true },
            ),
            WindowEventKind::CursorLeft => (
                self,
                EventResponse { canvas_op: None, schedule_redraw: false },
            ),
            WindowEventKind::Other => (
                self,
                EventResponse { canvas_op: None, schedule_redraw: false },
            ),
        }
    }

    /// The resize half of one `update` step: a pending resize is consumed;
    /// it takes effect unless the reported size is degenerate, in which case
    /// it is skipped without retry.
    pub open spec fn spec_resize_step(self) -> DrawingWindow {
        if self.resized {
            if degenerate(self.inner_size) {
                DrawingWindow { resized: false, ..self }
            } else {
                DrawingWindow { resized: false, size: self.inner_size, ..self }
            }
        } else {
            self
        }
    }

    /// One full `update` step: the state after it, the reported lifecycle
    /// status (`Dead` exactly when a close was pending), and the size to
    /// reconfigure the surface to, if any.
    pub open spec fn spec_update(self) -> (DrawingWindow, WindowLifeStatus, Option<Size>) {
        let stepped = self.spec_resize_step();
        (
            DrawingWindow { close: false, ..stepped },
            if self.close { WindowLifeStatus::Dead } else { WindowLifeStatus::Alive },
            if self.resized && !degenerate(self.inner_size) { Some(self.inner_size) } else { None },
        )
    }

    /// How a failed surface-image acquisition changes the window: a lost
    /// surface is an implicit resize request, running out of memory retires
    /// the window on the next update, anything else is skipped.
    pub open spec fn spec_note_surface_error(self, err: SurfaceErrorKind) -> DrawingWindow {
        match err {
            SurfaceErrorKind::Lost => DrawingWindow { resized: true, ..self },
            SurfaceErrorKind::OutOfMemory => DrawingWindow { close: true, ..self },
            SurfaceErrorKind::Other => self,
        }
    }

    /// A fresh window whose surface was just configured to `initial_size`,
    /// with no pending events.
    pub fn new(initial_size: Size) -> (w: DrawingWindow)
        ensures
            w == (DrawingWindow {
                size: initial_size,
                inner_size: initial_size,
                resized: false,
                close: false,
            }),
    {
        DrawingWindow { size: initial_size, inner_size: initial_size, resized: false, close: false }
    }

    /// Consumes one platform event: updates the pending flags and returns
    /// the commands the caller must carry out. No lifecycle transition
    /// happens here; a close request only records intent for `update`.
    pub fn event_handler(&mut self, event: WindowEventKind) -> (r: EventResponse)
        ensures
            *final(self) == old(self).spec_handle_event(event).0,
            r == old(self).spec_handle_event(event).1,
    {
        match event {
            WindowEventKind::CloseRequested => {
                self.close = true;
                EventResponse { canvas_op: None, schedule_redraw: false }
            }
            WindowEventKind::Resized(s) => {
                self.resized = true;
                self.inner_size = s;
                EventResponse { canvas_op: None, schedule_redraw: false }
            }
            WindowEventKind::KeyReleased(k) => {
                match k {
                    Key::C => EventResponse {
                        canvas_op: Some(CanvasOp::Clear),
                        schedule_redraw: true,
                    },
                    Key::Other => EventResponse { canvas_op: None, schedule_redraw: false },
                }
            }
            WindowEventKind::MouseLeftPressed => EventResponse {
                canvas_op: Some(CanvasOp::MouseDown),
                schedule_redraw: true,
            },
            WindowEventKind::MouseLeftReleased => EventResponse {
                canvas_op: Some(CanvasOp::MouseUp),
                schedule_redraw: true,
            },
            WindowEventKind::CursorMoved(p) => EventResponse {
                canvas_op: Some(CanvasOp::MousePos(p)),
                schedule_redraw: true,
            },
            WindowEventKind::CursorLeft => EventResponse {
                canvas_op: None,
                schedule_redraw: false,
            },
            WindowEventKind::Other => EventResponse { canvas_op: None, schedule_redraw: false },
        }
    }

    /// The per-tick reconciliation step. A pending resize is consumed first:
    /// degenerate sizes leave the window Alive with the surface
    /// unreconfigured and no retry; otherwise the new size is adopted and
    /// returned for the caller to reconfigure the surface with. A pending
    /// close is consumed next and reported as `Dead`. This window kind never
    /// spawns a child.
    pub fn update(&mut self) -> (r: UpdateOutcome)
        ensures
            *final(self) == old(self).spec_update().0,
            r.status == old(self).spec_update().1,
            r.reconfigure == old(self).spec_update().2,
            r.child is None,
            r.status is Dead <==> old(self).close,
            !final(self).close,
            !final(self).resized,
    {
        let mut reconfigure: Option<Size> = None;
        if self.resized {
            self.resized = false;
            if self.inner_size.w > 0 && self.inner_size.h > 0 {
                self.size = self.inner_size;
                reconfigure = Some(self.inner_size);
            }
        }

        if self.close {
            self.close = false;
            return UpdateOutcome {
                status: WindowLifeStatus::Dead,
                child: None,
                reconfigure,
            };
        }

        UpdateOutcome { status: WindowLifeStatus::Alive, child: None, reconfigure }
    }

    /// Classifies a failed surface-image acquisition. Only a lost surface or
    /// an out-of-memory report changes state, and neither retires the window
    /// here: retirement is `update`'s alone.
    pub fn note_surface_error(&mut self, err: SurfaceErrorKind)
        ensures
            *final(self) == old(self).spec_note_surface_error(err),
    {
        match err {
            SurfaceErrorKind::Lost => { self.resized = true; }
            SurfaceErrorKind::OutOfMemory => { self.close = true; }
            SurfaceErrorKind::Other => {}
        }
    }

    /// The viewport covering the whole drawable surface, against which the
    /// window's components are rendered.
    pub fn render_viewport(&self) -> (r: Rect)
        ensures
            r == (Rect { pos: Point { x: 0, y: 0 }, size: self.size }),
    {
        Rect { pos: Point { x: 0, y: 0 }, size: self.size }
    }
}

/// A close event retires a window only through `update`: the event itself
/// merely records intent, the first `update` after it reports `Dead`, and
/// that single `update` consumes the intent, so a further `update` reports
/// `Alive` again.
pub proof fn lemma_close_takes_exactly_one_update(w: DrawingWindow, e: WindowEventKind)
    requires
        e is CloseRequested,
    ensures
        w.spec_handle_event(e).0.close,
        w.spec_handle_event(e).0.spec_update().1 is Dead,
        w.spec_handle_event(e).0.spec_update().0.spec_update().1 is Alive,
{
}

/// A pending resize to a degenerate size leaves the window Alive, does not
/// reconfigure the surface, keeps the drawable size, and clears the pending
/// flag for good: the next update does not retry either.
pub proof fn lemma_degenerate_resize_skipped(w: DrawingWindow)
    requires
        w.resized,
        degenerate(w.inner_size),
        !w.close,
    ensures
        w.spec_update().1 is Alive,
        w.spec_update().2 is None,
        w.spec_update().0.size == w.size,
        !w.spec_update().0.resized,
        w.spec_update().0.spec_update().1 is Alive,
        w.spec_update().0.spec_update().2 is None,
{
}

} // verus!
