//! Soundboard sounds: short sounds that can be played in voice channels.

use crate::model::id::{EmojiId, GuildId, SoundboardSoundId, UserId};
use crate::model::volume::Volume;
use crate::text::{decimal, push_decimal};
use vstd::prelude::*;
use vstd::string::*;

verus! {

/// A soundboard sound as the remote service knows it.
///
/// A value of this type is a snapshot. A change goes to the service through a
/// builder, and the sound that the service answers with takes the place of
/// the snapshot.
#[derive(Clone, Debug, PartialEq, Eq)]
pub struct SoundboardSound {
    /// The name of the sound.
    pub name: String,
    /// The identifier of the sound.
    pub id: SoundboardSoundId,
    /// The volume of the sound, from 0 to 1.
    pub volume: Volume,
    /// The custom emoji of the sound, if it has one.
    pub emoji_id: Option<EmojiId>,
    /// The unicode character of the sound's standard emoji, if it has one.
    pub emoji_unicode: Option<String>,
    /// The guild that the sound is in, if it is in one.
    pub guild_id: Option<GuildId>,
    /// Whether the sound can be used. A guild that loses the boosts that its
    /// sounds need keeps them, unavailable.
    pub available: bool,
    /// The user who made the sound, if the service says who.
    pub user: Option<UserId>,
}

impl SoundboardSound {
    /// Whether the sound can be used.
    pub fn available(&self) -> (available: bool)
        ensures
            available == self.available,
    {
        self.available
    }

    /// Records whether the sound can be used; every other attribute stays.
    pub fn set_available(&mut self, value: bool)
        ensures
            *final(self) == (SoundboardSound { available: value, ..*old(self) }),
    {
        self.available = value;
    }
}

impl SoundboardSoundId {
    /// The address of the sound's file at the content delivery network: the
    /// network's address for sounds, followed by the decimal numeral of the
    /// identifier.
    pub open spec fn url_of(self) -> Seq<char> {
        "https://cdn.discordapp.com/soundboard-sounds/"@ + decimal(self.0 as nat)
    }

    /// The address of the sound's file.
    #[must_use]
    pub fn url(self) -> (url: String)
        ensures
            url@ == self.url_of(),
    {
        let mut out = String::new();
        out.append("https://cdn.discordapp.com/soundboard-sounds/");
        push_decimal(&mut out, self.get());
        assert(out@ =~= self.url_of());
        out
    }
}

} // verus!
