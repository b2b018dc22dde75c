//! What belongs to guilds.

pub mod soundboard;
