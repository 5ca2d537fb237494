//! Gameplay core of a small 2D stomp platformer.
//!
//! The library holds the decision logic of the game: the enemy patrol
//! reversal rule, the translation of player input into drive forces and
//! jump impulses, the classification and resolution of collision events
//! (stomp versus defeat), the game-state machine, and the scene lifecycle
//! (spawn on entering play, teardown on leaving it).
//!
//! Rendering, physics integration, ray casting, and input polling are
//! external collaborators: the library consumes their answers as plain
//! values (ray-hit distances, axis values, collision event pairs) and
//! hands back plain values (forces, impulses, dust requests, state
//! transitions).
//!
//! All coordinates, distances, and velocities are fixed-point integers in
//! hundredths of a world unit (see `geometry`), so that every rule is
//! stated and proved exactly.

pub mod collision;
pub mod enemy;
pub mod geometry;
pub mod particle;
pub mod physic;
pub mod player;
pub mod scene;
pub mod state;
