//! Plain-value models of the events a platform window delivers, the errors a
//! presentable surface reports, and the actions the render loop can be told
//! to take. The loop owner translates the windowing backend's events into
//! these values and carries the returned actions out.

use vstd::prelude::*;

verus! {

/// The key identities the loop distinguishes: the escape key ends the loop,
/// every other key (or a key press without a recognised identity) is ignored.
#[derive(Clone, Copy, Debug, PartialEq, Eq, Structural)]
pub enum KeyCode {
    Escape,
    Other,
}

/// Whether a key went down or came up.
#[derive(Clone, Copy, Debug, PartialEq, Eq, Structural)]
pub enum KeyState {
    Pressed,
    Released,
}

/// One keyboard event: a key identity and the direction it moved.
#[derive(Clone, Copy, Debug, PartialEq, Eq, Structural)]
pub struct KeyboardInput {
    pub state: KeyState,
    pub key: KeyCode,
}

/// An event addressed to the window itself.
#[derive(Clone, Copy, Debug, PartialEq, Eq, Structural)]
pub enum WindowEvent {
    /// The user asked to close the window.
    CloseRequested,
    /// A key moved while the window had focus.
    Keyboard(KeyboardInput),
    /// The window was resized to the given pixel dimensions.
    Resized(u32, u32),
    /// The display scale changed, giving the window new pixel dimensions.
    ScaleFactorChanged(u32, u32),
    /// Any other window event; the loop ignores it.
    Other,
}

/// One event from the platform's event stream.
#[derive(Clone, Copy, Debug, PartialEq, Eq, Structural)]
pub enum Event {
    /// The window needs to be drawn.
    RedrawRequested,
    /// All pending events have been handled; the loop is idle.
    MainEventsCleared,
    /// An event addressed to the window.
    Window(WindowEvent),
    /// Any other platform event; the loop ignores it.
    Other,
}

/// The ways acquiring a presentable image can fail.
#[derive(Clone, Copy, Debug, PartialEq, Eq, Structural)]
pub enum SurfaceError {
    /// The surface was lost and must be reconfigured before the next frame.
    Lost,
    /// The system is out of memory; the loop must terminate.
    OutOfMemory,
    /// The surface no longer matches the window; transient, the frame is
    /// skipped.
    Outdated,
    /// Acquiring the image timed out; transient, the frame is skipped.
    Timeout,
}

/// What the loop owner must do after handing an event or a render outcome to
/// the state.
#[derive(Clone, Copy, Debug, PartialEq, Eq, Structural)]
pub enum Action {
    /// Nothing to do; wait for the next event.
    Continue,
    /// Ask the window to schedule a redraw.
    RequestRedraw,
    /// Render and present one frame, then report the outcome.
    Render,
    /// Reconfigure the surface with the stored configuration.
    Reconfigure,
    /// Stop the event loop.
    Exit,
}

} // verus!
