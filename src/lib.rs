//! Persistence and authorization core for players' cosmetic appearance:
//! tokens that authorize writes, the live appearance of each player, saved
//! loadouts per slot, and equipping a saved loadout.

pub mod error;
pub mod player;
pub mod store;
pub mod laws;
