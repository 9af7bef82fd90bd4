//! Simulation core of a fixed-camera, wave-based shooter.
//!
//! The library owns every moving entity (player, enemy formation,
//! destructible barriers, shots of both sides), advances them on a fixed
//! timestep, resolves circular collisions, retires dead entities and drives
//! wave progression.  Rendering, audio and input plumbing live outside; the
//! simulation only consumes plain input snapshots and emits plain render,
//! audio-cue and interface descriptors.

pub mod clock;
pub mod collision;
pub mod entity;
pub mod formation;
pub mod lifecycle;
pub mod motion;
pub mod rng;
pub mod state;
