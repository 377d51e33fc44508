//! Decision logic for a windowed immediate-mode UI demo: a model of the
//! event loop that drives surface configuration and frame rendering, and a
//! time-of-day reading for the demo's clock.

pub mod clock;
pub mod event_loop;
