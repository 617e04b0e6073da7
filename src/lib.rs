//! A turn-based combat engine: combatants with stats and weapons, a die
//! that drives initiative and fleeing, and the rules of one fight.

pub mod entity;
pub mod dice;
pub mod combatant;
pub mod characters;
pub mod fight;
pub mod config;
