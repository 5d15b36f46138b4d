//! The engine of an idle game about running servers.
//!
//! Resources accumulate tick by tick from the buildings a player owns, are
//! spent on more buildings and on upgrades, are perturbed by random events,
//! and are reset for a lasting multiplier by a prestige. The engine holds
//! every rule of that economy; a host feeds it ticks and keys and draws
//! what it reads from it.
//!
//! Every quantity is a fixed-point number of millionths (see [`fixed`]), so
//! that each result is exact and the same on every machine. Every function
//! is verified against its contract; the few items that rest on the `rand`
//! crate or on `String` without proof are in [`random`] and [`text`].

pub mod action;
pub mod buildings;
pub mod components;
pub mod events;
pub mod fixed;
pub mod format;
pub mod formulas;
pub mod invariants;
pub mod layout;
pub mod network_info;
pub mod progression;
pub mod random;
pub mod resources;
pub mod save;
pub mod session;
pub mod state;
pub mod tasks;
pub mod text;
pub mod upgrades;
