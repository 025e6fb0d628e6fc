//! The moving entities of the field: the player ship, its lasers, and the
//! asteroids they are fired at.

pub mod laser;
pub mod roid;
pub mod ship;
