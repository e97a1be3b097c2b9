//! The core's model of the traffic it exchanges with its external
//! collaborators: inbound platform window events, the commands a window
//! forwards to its drawing component, and the classified outcomes of a
//! surface-image acquisition.

use vstd::prelude::*;
use crate::geometry::{Point, Size};

verus! {

/// The released key, as far as the core's decisions depend on it.
#[derive(Copy, Clone, Debug, PartialEq, Eq, Structural)]
pub enum Key {
    /// The key that clears the drawing canvas.
    C,
    /// Any other key: released without effect.
    Other,
}

/// A platform window event, reduced to the data the core reads from it.
/// The platform glue translates its native event type into this one before
/// handing it to the multiplexer.
#[derive(Copy, Clone, Debug, PartialEq, Eq, Structural)]
pub enum WindowEventKind {
    /// The user asked to close the window.
    CloseRequested,
    /// The window was resized; carries the new drawable size.
    Resized(Size),
    /// A key was released.
    KeyReleased(Key),
    /// The left mouse button was pressed.
    MouseLeftPressed,
    /// The left mouse button was released.
    MouseLeftReleased,
    /// The cursor moved to the given window-local position.
    CursorMoved(Point),
    /// The cursor left the window.
    CursorLeft,
    /// Any event the core ignores.
    Other,
}

/// A command for the window's drawing component, produced by the window's
/// event handler and performed by the caller.
#[derive(Copy, Clone, Debug, PartialEq, Eq, Structural)]
pub enum CanvasOp {
    /// Clear the drawn content.
    Clear,
    /// The primary button went down over the canvas.
    MouseDown,
    /// The primary button was released.
    MouseUp,
    /// The pointer moved to the given position.
    MousePos(Point),
}

/// What the caller must do after one event was handled: forward at most one
/// command to the drawing component, and possibly ask the redraw scheduler
/// for a (rate-limited, coalesced) redraw of this window.
#[derive(Copy, Clone, Debug, PartialEq, Eq, Structural)]
pub struct EventResponse {
    pub canvas_op: Option<CanvasOp>,
    pub schedule_redraw: bool,
}

/// The classified failure of acquiring the next presentable surface image.
#[derive(Copy, Clone, Debug, PartialEq, Eq, Structural)]
pub enum SurfaceErrorKind {
    /// The surface was lost: treated as an implicit resize request.
    Lost,
    /// The GPU is out of memory: fatal to this window alone.
    OutOfMemory,
    /// Any other failure: the frame is skipped and logged.
    Other,
}

} // verus!
