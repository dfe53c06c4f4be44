//! Shelf navigation on a grid of horizontal intervals stacked in levels.

pub mod input;
pub mod layout;
pub mod navigation;
pub mod player;
pub mod shelf;
