//! The placement engine: rectangles, screens, actions and the calculation
//! that turns an action into a target rectangle.

pub mod action;
pub mod common;
pub mod laws;
pub mod snap;
pub mod window_rect;
pub mod window_state;
