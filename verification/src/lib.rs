//! A deterministic, turn-based grid-chase engine.
//!
//! A player moves on a bounded grid while pursuing robots step toward the
//! player's cell once per tick.  Robots that run into each other are destroyed
//! and leave a junk pile behind; robots that run into a junk pile are
//! destroyed; a robot reaching the player's cell ends the level.  The engine
//! consumes exactly one command per tick, appends the commands it applies to a
//! log, and can replay such a log against the same random seed to reproduce a
//! run.

pub mod command;
pub mod game;
pub mod geom;
pub mod laws;
pub mod rng;
pub mod state;
pub mod step;
