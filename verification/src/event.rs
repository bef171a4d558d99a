//! The vocabulary shared by the render loop and the code that drives it:
//! what the windowing system reports, what presenting a frame can answer,
//! and what the loop is asked to do next.
//!
//! Everything here is plain data. The driver converts the windowing
//! system's own events into these types and carries out the actions it is
//! handed back.

use vstd::prelude::*;

verus! {

/// The extent of a window's drawable area, in physical pixels.
#[derive(Clone, Copy, Debug, PartialEq, Eq, Structural)]
pub struct Size {
    pub width: u32,
    pub height: u32,
}

impl Size {
    /// A surface can only be configured with at least one pixel in each
    /// direction.
    pub open spec fn drawable(self) -> bool {
        self.width > 0 && self.height > 0
    }

    /// Whether a surface of this extent can be configured.
    pub fn is_drawable(&self) -> (b: bool)
        ensures
            b == self.drawable(),
    {
        self.width > 0 && self.height > 0
    }
}

/// Where the cursor is, as the windowing system reported it.
///
/// Each coordinate is a double-precision number kept as its raw bit
/// pattern. The render loop never interprets the coordinates; it only
/// remembers them for the driver, which turns them back into numbers.
#[derive(Clone, Copy, Debug, PartialEq, Eq, Structural)]
pub struct CursorPosition {
    pub x: u64,
    pub y: u64,
}

/// Whether a key went down or came up.
#[derive(Clone, Copy, Debug, PartialEq, Eq, Structural)]
pub enum ElementState {
    Pressed,
    Released,
}

/// The keys the render loop tells apart.
#[derive(Clone, Copy, Debug, PartialEq, Eq, Structural)]
pub enum VirtualKey {
    Escape,
    Space,
    /// Any key the loop has no use for.
    Other,
}

/// Something that happened to one window.
#[derive(Clone, Copy, Debug, PartialEq, Eq)]
pub enum WindowEvent {
    /// The user asked for the window to be closed.
    CloseRequested,
    /// A key changed state. `key` is `None` when the windowing system could
    /// not name the key.
    KeyboardInput { state: ElementState, key: Option<VirtualKey> },
    /// The drawable area now has this extent.
    Resized(Size),
    /// The scale factor changed, and with it the drawable area's extent.
    ScaleFactorChanged(Size),
    /// The cursor moved inside the window.
    CursorMoved(CursorPosition),
    /// Anything else.
    Other,
}

/// One turn of the event loop.
#[derive(Clone, Copy, Debug, PartialEq, Eq)]
pub enum Event {
    /// An event addressed to the window with the given identifier.
    Window { window: u64, event: WindowEvent },
    /// The window with the given identifier has to be redrawn.
    RedrawRequested { window: u64 },
    /// All pending events have been delivered.
    MainEventsCleared,
    /// Anything else.
    Other,
}

/// Why no frame could be obtained from the surface.
#[derive(Clone, Copy, Debug, PartialEq, Eq, Structural)]
pub enum SurfaceError {
    /// Acquiring the next frame took too long.
    Timeout,
    /// The surface changed underneath the swap chain.
    Outdated,
    /// The swap chain was lost and has to be recreated.
    Lost,
    /// There is no memory left for another frame.
    OutOfMemory,
}

/// What the driver has to do after the render loop has seen an event.
#[derive(Clone, Copy, Debug, PartialEq, Eq)]
pub enum Action {
    /// Nothing.
    Idle,
    /// Leave the event loop.
    Exit,
    /// Configure the surface with the loop's current configuration.
    Configure,
    /// Draw the frame the loop describes and report how presenting it went.
    Render,
    /// Ask the windowing system for another redraw.
    RequestRedraw,
    /// Tell the user about an error the loop can live with.
    Report(SurfaceError),
}

} // verus!
