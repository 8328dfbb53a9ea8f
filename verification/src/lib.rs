//! Rules of a dogfighting miniatures game: ships fly templates from hidden
//! dials, roll attack and defense dice, and carry pilot and upgrade cards
//! that bend the rules.
//!
//! The crate holds the rules only. Distances, arcs and overlaps are measured
//! by the caller and handed in as plain facts (see [`sight`]); the dice are a
//! strip of raw values (see [`dice::Dice`]). Everything that follows from
//! them is decided here.

pub mod action;
pub mod board;
pub mod bombs;
pub mod bot;
pub mod catalog;
pub mod combat;
pub mod crit;
pub mod data;
pub mod dice;
pub mod event;
pub mod game;
pub mod geometry;
pub mod maneuver;
pub mod mission;
pub mod obstacle;
pub mod pick;
pub mod pilot;
pub mod policy;
pub mod ship;
pub mod sight;
pub mod squad;
pub mod text;
pub mod upgrade;
