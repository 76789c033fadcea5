//! The decisions behind the example scenes' per-frame updates, stated and
//! proved: which way the arrow keys held on the engine's keyboard state steer
//! the movable objects.

mod movement;

pub use movement::{Arrow, ArrowKeys, Direction, direction, movement_direction};
