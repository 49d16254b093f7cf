//! The state a render loop owns and the decisions it makes.
//!
//! `State` holds the surface configuration, a mirror of the window size, and
//! the running flag. `handle_event` consumes one platform event and
//! `after_render` one render outcome; each updates the state and tells the
//! loop owner what to do next. The spec functions beside them say exactly
//! what every step does, and `crate::trace` proves the loop-wide laws over
//! sequences of steps.

use vstd::prelude::*;

use crate::events::{Action, Event, KeyCode, KeyState, SurfaceError, WindowEvent};

verus! {

/// A pixel format the surface can store images in. The loop never interprets
/// the format; it stores whichever one the graphics backend reported as
/// supported and hands it back on reconfiguration.
#[derive(Clone, Copy, Debug, PartialEq, Eq, Structural)]
pub enum TextureFormat {
    Bgra8Unorm,
    Bgra8UnormSrgb,
    Rgba8Unorm,
    Rgba8UnormSrgb,
    Other,
}

/// How presented frames are synchronised with the display.
#[derive(Clone, Copy, Debug, PartialEq, Eq, Structural)]
pub enum PresentMode {
    /// Queue frames and present at the display's refresh rate (vsync).
    Fifo,
    /// Present immediately, without synchronisation.
    Immediate,
    /// Replace the queued frame with the newest one.
    Mailbox,
}

/// A width and height in pixels.
#[derive(Clone, Copy, Debug, PartialEq, Eq, Structural)]
pub struct Extent {
    pub width: u32,
    pub height: u32,
}

impl Extent {
    /// Both dimensions are strictly positive, so a surface may be configured
    /// with them.
    pub open spec fn is_valid(self) -> bool {
        self.width > 0 && self.height > 0
    }
}

/// The stored surface configuration: what the surface is configured with now,
/// and what it will be reconfigured with after a resize or a loss.
#[derive(Clone, Copy, Debug, PartialEq, Eq, Structural)]
pub struct SurfaceConfig {
    pub format: TextureFormat,
    pub width: u32,
    pub height: u32,
    pub present_mode: PresentMode,
}

impl SurfaceConfig {
    /// The configuration's invariant: a surface must never be configured with
    /// a zero dimension.
    pub open spec fn is_valid(self) -> bool {
        self.width > 0 && self.height > 0
    }
}

/// The single-owner state of the render loop.
#[derive(Clone, Copy, Debug, PartialEq, Eq, Structural)]
pub struct State {
    /// The stored surface configuration.
    pub config: SurfaceConfig,
    /// The window's current pixel size, mirrored so a lost surface can be
    /// reconfigured with it.
    pub size: Extent,
    /// False once a close request, an escape press, or an out-of-memory
    /// error has terminated the loop.
    pub running: bool,
}

/// Whether a window event terminates the loop: a close request, or the
/// escape key going down.
pub open spec fn is_exit_event(e: WindowEvent) -> bool {
    match e {
        WindowEvent::CloseRequested => true,
        WindowEvent::Keyboard(k) => k.state is Pressed && k.key is Escape,
        _ => false,
    }
}

/// The state after a resize to `width` by `height`: unchanged when either
/// dimension is zero, otherwise the configuration and the size mirror both
/// carry the new dimensions.
pub open spec fn spec_resize(s: State, width: u32, height: u32) -> State {
    if width > 0 && height > 0 {
        State {
            config: SurfaceConfig { width, height, ..s.config },
            size: Extent { width, height },
            ..s
        }
    } else {
        s
    }
}

/// The state after one platform event. A terminated loop absorbs every
/// event; otherwise an exit event clears the running flag, a resize or scale
/// change resizes, and everything else leaves the state alone.
pub open spec fn spec_event_state(s: State, e: Event) -> State {
    if !s.running {
        s
    } else {
        match e {
            Event::Window(we) => {
                if is_exit_event(we) {
                    State { running: false, ..s }
                } else {
                    match we {
                        WindowEvent::Resized(w, h) => spec_resize(s, w, h),
                        WindowEvent::ScaleFactorChanged(w, h) => spec_resize(s, w, h),
                        _ => s,
                    }
                }
            },
            _ => s,
        }
    }
}

/// The action one platform event asks of the loop owner. A terminated loop
/// asks for nothing; a redraw request asks for a frame, idleness for the
/// next redraw, an exit event for termination, and an applied resize for a
/// surface reconfiguration.
pub open spec fn spec_event_action(s: State, e: Event) -> Action {
    if !s.running {
        Action::Continue
    } else {
        match e {
            Event::RedrawRequested => Action::Render,
            Event::MainEventsCleared => Action::RequestRedraw,
            Event::Window(we) => {
                if is_exit_event(we) {
                    Action::Exit
                } else {
                    match we {
                        WindowEvent::Resized(w, h) => {
                            if w > 0 && h > 0 {
                                Action::Reconfigure
                            } else {
                                Action::Continue
                            }
                        },
                        WindowEvent::ScaleFactorChanged(w, h) => {
                            if w > 0 && h > 0 {
                                Action::Reconfigure
                            } else {
                                Action::Continue
                            }
                        },
                        _ => Action::Continue,
                    }
                }
            },
            Event::Other => Action::Continue,
        }
    }
}

/// The state after one render outcome. A lost surface re-applies the current
/// size (the configuration keeps its values), out of memory terminates the
/// loop, and success or a transient error changes nothing.
pub open spec fn spec_render_state(s: State, r: Result<(), SurfaceError>) -> State {
    if !s.running {
        s
    } else {
        match r {
            Ok(()) => s,
            Err(SurfaceError::Lost) => spec_resize(s, s.size.width, s.size.height),
            Err(SurfaceError::OutOfMemory) => State { running: false, ..s },
            Err(_) => s,
        }
    }
}

/// The action one render outcome asks of the loop owner: reconfigure after a
/// loss, exit after out of memory, nothing otherwise (a transient error only
/// drops the frame).
pub open spec fn spec_render_action(s: State, r: Result<(), SurfaceError>) -> Action {
    if !s.running {
        Action::Continue
    } else {
        match r {
            Ok(()) => Action::Continue,
            Err(SurfaceError::Lost) => Action::Reconfigure,
            Err(SurfaceError::OutOfMemory) => Action::Exit,
            Err(_) => Action::Continue,
        }
    }
}

impl State {
    /// The state's invariant: the configuration has positive dimensions and
    /// the size mirror agrees with it.
    pub open spec fn wf(self) -> bool {
        &&& self.config.is_valid()
        &&& self.size.width == self.config.width
        &&& self.size.height == self.config.height
    }

    /// A fresh, running state: the surface is configured with the format the
    /// backend supports, the window's current size, and vsync presentation.
    pub fn new(format: TextureFormat, size: Extent) -> (s: State)
        requires
            size.is_valid(),
        ensures
            s.wf(),
            s.running,
            s.size == size,
            s.config == (SurfaceConfig {
                format,
                width: size.width,
                height: size.height,
                present_mode: PresentMode::Fifo,
            }),
    {
        State {
            config: SurfaceConfig {
                format,
                width: size.width,
                height: size.height,
                present_mode: PresentMode::Fifo,
            },
            size,
            running: true,
        }
    }

    /// Apply new window dimensions. A zero dimension leaves the state
    /// untouched and asks for nothing; positive dimensions are stored in the
    /// configuration and the size mirror, and the surface must then be
    /// reconfigured.
    pub fn resize(&mut self, new_size: Extent) -> (reconfigure: bool)
        requires
            old(self).wf(),
        ensures
            final(self).wf(),
            *final(self) == spec_resize(*old(self), new_size.width, new_size.height),
            reconfigure == new_size.is_valid(),
            !reconfigure ==> *final(self) == *old(self),
            reconfigure ==> final(self).config == (SurfaceConfig {
                width: new_size.width,
                height: new_size.height,
                ..old(self).config
            }),
            reconfigure ==> final(self).size == new_size,
            final(self).running == old(self).running,
            final(self).config.format == old(self).config.format,
            final(self).config.present_mode == old(self).config.present_mode,
    {
        if new_size.width > 0 && new_size.height > 0 {
            self.config.width = new_size.width;
            self.config.height = new_size.height;
            self.size = new_size;
            true
        } else {
            false
        }
    }

    /// Give the state first sight of a window event. The loop consults this
    /// before its own dispatch and skips the event when it was handled here;
    /// this renderer handles none itself.
    pub fn input(&mut self, event: &WindowEvent) -> (handled: bool)
        ensures
            *final(self) == *old(self),
            !handled,
    {
        let _ = event;
        false
    }

    /// Advance whatever the renderer animates between frames; this renderer
    /// animates nothing.
    pub fn update(&mut self)
        ensures
            *final(self) == *old(self),
    {
    }

    /// Consume one platform event: update the state as `spec_event_state`
    /// says and return the action `spec_event_action` says the loop owner
    /// must take.
    pub fn handle_event(&mut self, event: &Event) -> (a: Action)
        requires
            old(self).wf(),
        ensures
            final(self).wf(),
            *final(self) == spec_event_state(*old(self), *event),
            a == spec_event_action(*old(self), *event),
    {
        if !self.running {
            return Action::Continue;
        }
        match event {
            Event::RedrawRequested => Action::Render,
            Event::MainEventsCleared => Action::RequestRedraw,
            Event::Window(we) => {
                let handled = self.input(we);
                if handled {
                    Action::Continue
                } else {
                    self.handle_window_event(we)
                }
            },
            Event::Other => Action::Continue,
        }
    }

    /// Dispatch one window event for a running loop: exit events terminate
    /// it, resizes and scale changes go through `resize`, the rest is
    /// ignored.
    fn handle_window_event(&mut self, event: &WindowEvent) -> (a: Action)
        requires
            old(self).wf(),
            old(self).running,
        ensures
            final(self).wf(),
            *final(self) == spec_event_state(*old(self), Event::Window(*event)),
            a == spec_event_action(*old(self), Event::Window(*event)),
    {
        match event {
            WindowEvent::CloseRequested => {
                self.running = false;
                Action::Exit
            },
            WindowEvent::Keyboard(k) => {
                if matches!(k.state, KeyState::Pressed) && matches!(k.key, KeyCode::Escape) {
                    self.running = false;
                    Action::Exit
                } else {
                    Action::Continue
                }
            },
            WindowEvent::Resized(w, h) => {
                let applied = self.resize(Extent { width: *w, height: *h });
                if applied {
                    Action::Reconfigure
                } else {
                    Action::Continue
                }
            },
            WindowEvent::ScaleFactorChanged(w, h) => {
                let applied = self.resize(Extent { width: *w, height: *h });
                if applied {
                    Action::Reconfigure
                } else {
                    Action::Continue
                }
            },
            WindowEvent::Other => Action::Continue,
        }
    }

    /// Consume the outcome of one rendered frame. Success and transient
    /// errors ask for nothing (the frame is simply dropped on error); a lost
    /// surface re-applies the current size and asks for a reconfiguration,
    /// so it happens before the next frame; out of memory terminates the
    /// loop.
    pub fn after_render(&mut self, result: Result<(), SurfaceError>) -> (a: Action)
        requires
            old(self).wf(),
        ensures
            final(self).wf(),
            *final(self) == spec_render_state(*old(self), result),
            a == spec_render_action(*old(self), result),
            result == Err::<(), SurfaceError>(SurfaceError::Lost) && old(self).running
                ==> a is Reconfigure && final(self).config == old(self).config,
    {
        if !self.running {
            return Action::Continue;
        }
        match result {
            Ok(()) => Action::Continue,
            Err(SurfaceError::Lost) => {
                let size = self.size;
                self.resize(size);
                Action::Reconfigure
            },
            Err(SurfaceError::OutOfMemory) => {
                self.running = false;
                Action::Exit
            },
            Err(SurfaceError::Outdated) => Action::Continue,
            Err(SurfaceError::Timeout) => Action::Continue,
        }
    }
}

} // verus!
