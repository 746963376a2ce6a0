//! Dragging a window with a modifier key held: which keys are down, what a
//! drag session does with each input event, and what the zone overlay is
//! asked to do.

pub mod detection;
pub mod laws;
pub mod modifiers;
pub mod overlay;
pub mod session;
