//! A small farming simulation engine: a rectangular grid of tiles, each with a
//! ground type and an optional growing entity, and a single drone that moves
//! across the grid with wrap-around, tills soil, plants entities, and harvests
//! them once they are grown.
//!
//! The rule engine (ground/entity compatibility, time-based growth, harvest
//! eligibility, toroidal movement) lives here, fully specified and verified.
//! Text rendering and demo drivers are left to the surrounding application.

pub mod clock;
pub mod consts;
pub mod display;
pub mod error;
pub mod game;
pub mod world;
