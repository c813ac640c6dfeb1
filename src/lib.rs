//! Touchscreen autonomous-routine selector: the route registry, the screen
//! state machine, the touch filter and the frame pacing that drive it.

pub mod animation;
pub mod controller;
pub mod framebuffer;
pub mod pacing;
pub mod route;
pub mod screen;
pub mod touch;
pub mod view_model;
