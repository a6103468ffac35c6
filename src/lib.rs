//! Proximity interaction for a small 2D room: box overlap between interactors and
//! interactables, the in-range / highlight lifecycle, the on/off state machines of
//! the room's objects, and the randomised light and sparkle effects they drive.
//!
//! World positions and box sizes are whole world units.

pub mod aabb;
pub mod animation;
pub mod interaction;
mod random;
pub mod room;
pub mod scene;
pub mod timer;
pub mod tree;
