//! The view state of a roster canvas: what it shows for a roster, and how its
//! tooltip answers to the pointer.

pub mod canvas;
pub mod display;
pub mod messages;
pub mod render;
pub mod roster;
pub mod text;
