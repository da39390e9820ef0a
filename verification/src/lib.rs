//! Control core of a rotating embedded display demo: a single-slot
//! interrupt-to-loop signal, five screens with their own advance policies
//! and animation state, and a cyclic sequencer that runs them in order.
//!
//! Everything here is plain state-machine logic; drawing and hardware
//! access live outside the library and hand plain values in and out.

pub mod chart;
pub mod gauge;
pub mod input;
pub mod notifier;
pub mod ratatui_logo;
pub mod screen;
pub mod sequencer;
pub mod tabs;
pub mod voltage;
