//! Core logic of a windowed, GPU-presenting editor shell: translation of raw
//! platform events into a small canonical event vocabulary, redraw
//! scheduling, keybinding encoding, and frame pacing.  The platform itself
//! (window creation, rendering, polling) lives outside this crate; the
//! functions here take plain values in and hand plain values back.

pub mod events;
pub mod frame;
pub mod keyboard;
pub mod redraw_scheduler;
pub mod window;
