//! Round resolution engine of a two-player, rock-paper-scissors style
//! combat game: choices, their cyclic orderings, damage and advantage
//! bookkeeping, and the phase machine that sequences a match.

pub mod combo;
pub mod computer;
pub mod config;
pub mod events;
pub mod flow;
pub mod globals;
pub mod helper;
pub mod settings;
pub mod state;
pub mod types;
