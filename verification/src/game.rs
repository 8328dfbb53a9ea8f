//! The authoritative game state and turn phase machine:
//!
//! `Placement -> [Planning -> Resolution]* -> GameOver`
//!
//! Every mutation goes through a validated command method returning
//! `Result<_, Rejection>`.

pub mod abiding;
pub mod abilities;
pub mod actions;
pub mod activation;
pub mod aftermath;
pub mod aiming;
pub mod arsenal;
pub mod battle;
pub mod blasts;
pub mod bonds;
pub mod briefing;
pub mod cards;
pub mod closing;
pub mod conduct;
pub mod crews;
pub mod deeds;
pub mod deployment;
pub mod dial;
pub mod duels;
pub mod ending;
pub mod feats;
pub mod flight;
pub mod guarding;
pub mod gunsights;
pub mod hazards;
pub mod impact;
pub mod lasting;
pub mod laws;
pub mod missions;
pub mod modifiers;
pub mod mods;
pub mod muster;
pub mod narration;
pub mod order;
pub mod orders;
pub mod ordnance;
pub mod placement;
pub mod plain;
pub mod planning;
pub mod rejection;
pub mod respite;
pub mod rounds;
pub mod scenarios;
pub mod sequence;
pub mod settling;
pub mod setup;
pub mod skirmish;
pub mod snapshot;
pub mod sorties;
pub mod state;
pub mod targets;
pub mod tokens;
pub mod turns;
pub mod volley;
