//! Platformer character physics for one actor, in fixed-point arithmetic.
//!
//! Each call of [`Maddy::CLST_Tick`] advances the actor by one step: ground
//! contact, jump and dash timers, running, gravity, jumps and dashes, the
//! sprite, collision-safe movement one pixel at a time, and the hair. The
//! host supplies the world through [`Terrain`] and plays the returned cues.
//!
//! Lengths are measured in thousandths of a pixel, durations in thousandths
//! of a simulation tick (a tick is one frame at thirty frames per second).
//!
//! Input bits, from the most significant: left, up, down, right, unused,
//! unused, dash, jump.
pub mod fixed;
pub mod geometry;
pub mod world;
pub mod input;
pub mod sound;
pub mod actor;
pub mod control;
pub mod motion;
pub mod hair;
pub mod tick;
pub mod laws;

pub use actor::Maddy;
pub use geometry::{Color, Hitbox, Vector2};
pub use input::{KEYFLAG_DASH, KEYFLAG_DOWN, KEYFLAG_JUMP, KEYFLAG_LEFT, KEYFLAG_RIGHT, KEYFLAG_UP};
pub use sound::Sound;
pub use world::{NoCollision, Probe, Terrain};
