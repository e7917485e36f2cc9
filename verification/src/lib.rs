//! A small, fully specified 2-D arcade physics core: a square that bounces
//! inside a fixed 800x600 viewport under gravity, with keyboard steering, a
//! jetpack-style thrust meter that can overheat, wall/floor bounce damping,
//! contact friction, and derived render parameters for an external drawing
//! layer.
//!
//! All quantities are integers in milli-units (1 unit = 1000), so every frame
//! step is exact and free of rounding surprises; the window, event and drawing
//! layers live outside this crate and only exchange plain values with it.

pub mod config;
pub mod fixed;
pub mod keys;
pub mod laws;
pub mod render;
pub mod sim;

pub use config::Config;
pub use keys::HeldKeys;
pub use render::MeterColor;
pub use render::RenderParams;
pub use sim::App;
pub use sim::HeatState;
