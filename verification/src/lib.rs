//! Movement and collision-resolution core for a 2D side-scrolling platform
//! game.
//!
//! The library owns one controllable actor's kinematic state (position,
//! velocity, facing, grounded flag and a discrete motion state machine with
//! the states idle, walking and jumping), a step scheduler that coalesces
//! re-simulation requests, and a contact resolver that classifies collision
//! events into landings, pickups and goal triggers.
//!
//! All quantities are fixed-point integers so that every physical rule is
//! exact: lengths are measured in subunits of 1/60 of a world unit,
//! velocities in subunits per fixed step, and times in ticks of 1/6000 of a
//! second. Rendering, audio, window management and the broad-phase collision
//! world are collaborators outside this crate: they feed discrete events in
//! and read positions out.

pub mod types;
pub mod game_inputs;
pub mod step_queue;
pub mod player;
pub mod coin;
pub mod object;
pub mod contact;
