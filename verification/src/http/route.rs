//! Where a request goes: the method and the route.

use crate::model::id::{ChannelId, GuildId, SoundboardSoundId};
use crate::text::{decimal, push_decimal};
use vstd::prelude::*;
use vstd::string::*;

verus! {

/// The method of a request.
#[derive(Clone, Copy, Debug, PartialEq, Eq, Structural, Hash)]
pub enum Method {
    /// Makes a resource, or has the service do something.
    Post,
    /// Changes the fields of a resource that the payload names, and no others.
    Patch,
}

impl Method {
    /// The method's name on the wire.
    pub open spec fn wire(self) -> Seq<char> {
        match self {
            Method::Post => "POST"@,
            Method::Patch => "PATCH"@,
        }
    }

    /// The method's name on the wire.
    pub fn as_str(self) -> (name: &'static str)
        ensures
            name@ == self.wire(),
    {
        match self {
            Method::Post => "POST",
            Method::Patch => "PATCH",
        }
    }
}

/// The resource that a request addresses.
#[derive(Clone, Copy, Debug, PartialEq, Eq, Structural, Hash)]
pub enum Route {
    /// The soundboard sounds of a guild.
    GuildSoundboardSounds { guild_id: GuildId },
    /// One soundboard sound of a guild.
    GuildSoundboardSound { guild_id: GuildId, sound_id: SoundboardSoundId },
    /// The invites of a channel.
    ChannelInvites { channel_id: ChannelId },
    /// The playing of a soundboard sound in a voice channel.
    ChannelSendSoundboardSound { channel_id: ChannelId },
}

impl Route {
    /// The path of the route, with every identifier as its decimal numeral.
    pub open spec fn path_of(self) -> Seq<char> {
        match self {
            Route::GuildSoundboardSounds { guild_id } => "/guilds/"@ + decimal(guild_id.0 as nat)
                + "/soundboard-sounds"@,
            Route::GuildSoundboardSound { guild_id, sound_id } => "/guilds/"@ + decimal(
                guild_id.0 as nat,
            ) + "/soundboard-sounds/"@ + decimal(sound_id.0 as nat),
            Route::ChannelInvites { channel_id } => "/channels/"@ + decimal(channel_id.0 as nat)
                + "/invites"@,
            Route::ChannelSendSoundboardSound { channel_id } => "/channels/"@ + decimal(
                channel_id.0 as nat,
            ) + "/send-soundboard-sound"@,
        }
    }

    /// The path of the route.
    pub fn path(&self) -> (path: String)
        ensures
            path@ == self.path_of(),
    {
        let mut out = String::new();
        match *self {
            Route::GuildSoundboardSounds { guild_id } => {
                out.append("/guilds/");
                push_decimal(&mut out, guild_id.get());
                out.append("/soundboard-sounds");
            },
            Route::GuildSoundboardSound { guild_id, sound_id } => {
                out.append("/guilds/");
                push_decimal(&mut out, guild_id.get());
                out.append("/soundboard-sounds/");
                push_decimal(&mut out, sound_id.get());
            },
            Route::ChannelInvites { channel_id } => {
                out.append("/channels/");
                push_decimal(&mut out, channel_id.get());
                out.append("/invites");
            },
            Route::ChannelSendSoundboardSound { channel_id } => {
                out.append("/channels/");
                push_decimal(&mut out, channel_id.get());
                out.append("/send-soundboard-sound");
            },
        }
        assert(out@ =~= self.path_of());
        out
    }
}

} // verus!
