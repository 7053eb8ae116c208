//! Controller for a floating overlay panel: its geometry on a display, the
//! choice of display, and the show / hide / toggle transitions of the surface.

pub mod geometry;
pub mod monitor;
pub mod panel;
pub mod surface;
