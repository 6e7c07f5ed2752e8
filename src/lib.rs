//! A small 2D dodging simulation: a keyboard-driven circle avoids circles
//! that bounce around a fixed-size screen, and is sent back to the centre
//! whenever one of them touches it.
//!
//! Positions, radii and speeds are whole pixels. The per-frame rules
//! (movement, clamping, reflection, collision) are verified here; the window,
//! the keyboard and the drawing live in the application around the library.

pub mod screen;
pub mod player;
pub mod circle;
pub mod collision;
pub mod input;
pub mod scene;
pub mod render;
pub mod random;
