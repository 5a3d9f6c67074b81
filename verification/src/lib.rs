//! The discrete core of a side-view platformer whose player is pulled by
//! several moons: which buttons are held, what the player is doing, and in
//! what order the scene's objects are visited.
//!
//! The library never touches a coordinate. The caller moves the body, reports
//! what it measured, and carries out what the library decides.

pub mod app;
pub mod dude;
pub mod input;
pub mod registry;
