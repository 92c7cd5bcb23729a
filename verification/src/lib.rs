//! Frame-by-frame rules of a small top-down space shooter: how held keys steer
//! a ship, how a weapon's cooldown gates its fire, and when a projectile leaves
//! the arena.

pub mod bounds;
pub mod cooldown;
pub mod keyboard;
pub mod movement;
pub mod projectile;
pub mod weapon;

pub use bounds::{keep_in_bounds, Bounce, Crossing, Deflection};
pub use cooldown::Cooldown;
pub use movement::{apply_input, steer, MoveControls, MovementSystem, Steering};
pub use projectile::despawn_outside;
pub use weapon::{fire_weapons, tick_timers, Weapon, Weapons};
