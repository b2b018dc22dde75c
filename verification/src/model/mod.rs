//! The identifiers and entities the requests speak of.

pub mod guild;
pub mod id;
pub mod invite;
pub mod volume;

pub use guild::soundboard::SoundboardSound;
pub use id::{ApplicationId, ChannelId, EmojiId, GuildId, SoundboardSoundId, UserId};
pub use invite::InviteTargetType;
pub use volume::Volume;
