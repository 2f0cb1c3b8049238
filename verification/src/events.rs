use vstd::prelude::*;
use crate::geometry::{ScaleFactor, Size};
use crate::state::WindowHandle;
use crate::surface::SurfaceConfig;

verus! {

/// The fixed set of window events the host environment delivers, as the run
/// loop reads them. Everything the loop does not react to arrives as
/// `Other`.
#[derive(Clone, Copy, PartialEq, Eq, Structural, Debug)]
pub enum Event {
    /// The drawable area changed to this size.
    Resized(Size),
    /// The display scale factor changed.
    ScaleFactorChanged(ScaleFactor),
    /// The host asks for a frame.
    RedrawRequested,
    /// The window received a close request.
    CloseRequested,
    /// Any other window event.
    Other,
}

/// Which handle an idle-tick redraw request goes to.
#[derive(Clone, Copy, PartialEq, Eq, Structural, Debug)]
pub enum RedrawTarget {
    /// The bare window, before the graphics context exists.
    Window,
    /// The window the graphics context tracks.
    ContextWindow,
}

/// What the shell must do after an event has been handled. The run loop
/// decides; the shell performs.
#[derive(Clone, Copy, PartialEq, Eq, Structural, Debug)]
pub enum Action {
    /// Nothing to perform.
    Nothing,
    /// Signal process termination.
    Exit,
    /// Consume this window handle and construct the graphics context from
    /// it, blocking on its asynchronous negotiation.
    CreateContext(WindowHandle),
    /// Reapply this configuration to the surface.
    ConfigureSurface(SurfaceConfig),
    /// Render one frame; `dt` is the elapsed time since the previous frame,
    /// in milliseconds.
    Render { dt: u64 },
}

} // verus!
