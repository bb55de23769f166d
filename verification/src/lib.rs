//! The simulation core of a top-down arena shooter: it advances the game
//! state once per frame, resolving movement, collisions, combat, spawning
//! and progression. Positions and radii are held in thousandths of a world
//! unit, durations in whole milliseconds, health and damage in hundredths
//! of a point; every update is specified and verified over those integers.
//! Rendering, input and the window live outside this crate and only read
//! the state the frame update leaves behind.

pub mod alerts;
pub mod ammo;
pub mod bullets;
pub mod color;
pub mod combat;
pub mod cooldown;
pub mod entity;
pub mod game;
pub mod geom;
pub mod movement;
pub mod pickups;
pub mod player;
pub mod progression;
pub mod rng;
pub mod trig;
pub mod wave;
pub mod weapon;
