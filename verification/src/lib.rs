//! Core logic of a Minecraft launcher: the mod catalogue and its toggles, the
//! classification of user mods on disk, offline account identities, and the
//! decisions taken while preparing a game launch.

pub mod text;
pub mod catalog;
pub mod mod_state;
pub mod custom_mods;
pub mod github;
pub mod predefined;
pub mod setup;
pub mod modrinth;
pub mod account;
pub mod options;
pub mod launch;
pub mod runner;
