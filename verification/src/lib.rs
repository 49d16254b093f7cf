//! Control logic for a minimal windowed GPU renderer.
//!
//! The library models the state that a single-threaded render loop owns —
//! the surface configuration, the window size, and whether the loop is still
//! running — and decides, for each platform event and each render outcome,
//! how that state changes and which action the surrounding loop must take
//! next (render a frame, reconfigure the surface, request a redraw, or exit).
//! The surrounding program performs the actions against the windowing and
//! graphics backends; every decision is made here, under contract.

pub mod events;
pub mod pipeline;
pub mod state;
pub mod trace;
