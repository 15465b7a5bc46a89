//! A tile-grid simulation advanced one frame at a time: entities move on a
//! wall/floor grid, collide, deal damage, and are drawn as flat lists of
//! rectangles.
pub mod vector;
pub mod grid;
pub mod entity;
pub mod component;
pub mod state;
pub mod lemmas;
