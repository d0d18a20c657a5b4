//! Simulation core of a top-down arcade space shooter.
//!
//! The library advances a fixed-timestep world of interacting entities
//! (player, enemies, projectiles, powerups) and resolves their collisions
//! each frame.  Positions are held in milli-pixels (one pixel is 1000
//! units) so that sub-pixel motion stays in exact integer arithmetic.
//! Rendering, audio and input polling belong to the host shell; the
//! library consumes plain values (input state, screen size, random draws)
//! and hands plain values back.

pub mod enemy;
pub mod game;
pub mod hud;
pub mod input;
pub mod player;
pub mod power_up;
pub mod projectile;
pub mod trig;
pub mod utils;

pub use utils::Hitbox;
pub use utils::Rng;
pub use utils::check_collision;
pub use utils::overlaps;
pub use utils::rand_with_seed;
