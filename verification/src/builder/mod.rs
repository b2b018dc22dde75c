//! The request builders and the payloads they make.

pub mod create_guild_soundboard_sound;
pub mod create_invite;
pub mod draft;
pub mod edit_guild_soundboard_sound;
pub mod payload;
pub mod send_soundboard_sound;

pub use create_guild_soundboard_sound::CreateGuildSoundboardSound;
pub use create_invite::CreateInvite;
pub use edit_guild_soundboard_sound::EditGuildSoundboardSound;
pub use payload::{emit, find, Field, Key, Slot, Value};
pub use send_soundboard_sound::SendSoundboardSound;
