//! Identifiers of the remote service's resources.
//!
//! Every kind of resource has an identifier type of its own over the same
//! 64-bit number, so that one kind is never taken for another. The number is
//! not inspected: identifiers are equal, and ordered, as their numbers are.

use core::cmp::Ordering;
use vstd::prelude::*;
use vstd::std_specs::cmp::PartialOrdSpecImpl;

verus! {

/// How two raw identifier numbers are ordered.
pub open spec fn raw_order(a: u64, b: u64) -> Ordering {
    if a < b {
        Ordering::Less
    } else if a == b {
        Ordering::Equal
    } else {
        Ordering::Greater
    }
}

fn order_raw(a: u64, b: u64) -> (r: Ordering)
    ensures
        r == raw_order(a, b),
{
    if a < b {
        Ordering::Less
    } else if a == b {
        Ordering::Equal
    } else {
        Ordering::Greater
    }
}

/// Identifier of a soundboard sound.
#[derive(Clone, Copy, Debug, PartialEq, Eq, Structural, Hash, Ord)]
pub struct SoundboardSoundId(pub u64);

impl SoundboardSoundId {
    /// The identifier with the raw number `id`.
    pub fn new(id: u64) -> (r: Self)
        ensures
            r.0 == id,
    {
        SoundboardSoundId(id)
    }

    /// The raw number of the identifier.
    pub fn get(self) -> (id: u64)
        ensures
            id == self.0,
    {
        self.0
    }
}

impl PartialOrd for SoundboardSoundId {
    fn partial_cmp(&self, other: &Self) -> (r: Option<Ordering>) {
        Some(order_raw(self.0, other.0))
    }
}

impl PartialOrdSpecImpl for SoundboardSoundId {
    open spec fn obeys_partial_cmp_spec() -> bool {
        true
    }

    open spec fn partial_cmp_spec(&self, other: &Self) -> Option<Ordering> {
        Some(raw_order(self.0, other.0))
    }
}

/// Identifier of a guild.
#[derive(Clone, Copy, Debug, PartialEq, Eq, Structural, Hash, Ord)]
pub struct GuildId(pub u64);

impl GuildId {
    /// The identifier with the raw number `id`.
    pub fn new(id: u64) -> (r: Self)
        ensures
            r.0 == id,
    {
        GuildId(id)
    }

    /// The raw number of the identifier.
    pub fn get(self) -> (id: u64)
        ensures
            id == self.0,
    {
        self.0
    }
}

impl PartialOrd for GuildId {
    fn partial_cmp(&self, other: &Self) -> (r: Option<Ordering>) {
        Some(order_raw(self.0, other.0))
    }
}

impl PartialOrdSpecImpl for GuildId {
    open spec fn obeys_partial_cmp_spec() -> bool {
        true
    }

    open spec fn partial_cmp_spec(&self, other: &Self) -> Option<Ordering> {
        Some(raw_order(self.0, other.0))
    }
}

/// Identifier of a channel.
#[derive(Clone, Copy, Debug, PartialEq, Eq, Structural, Hash, Ord)]
pub struct ChannelId(pub u64);

impl ChannelId {
    /// The identifier with the raw number `id`.
    pub fn new(id: u64) -> (r: Self)
        ensures
            r.0 == id,
    {
        ChannelId(id)
    }

    /// The raw number of the identifier.
    pub fn get(self) -> (id: u64)
        ensures
            id == self.0,
    {
        self.0
    }
}

impl PartialOrd for ChannelId {
    fn partial_cmp(&self, other: &Self) -> (r: Option<Ordering>) {
        Some(order_raw(self.0, other.0))
    }
}

impl PartialOrdSpecImpl for ChannelId {
    open spec fn obeys_partial_cmp_spec() -> bool {
        true
    }

    open spec fn partial_cmp_spec(&self, other: &Self) -> Option<Ordering> {
        Some(raw_order(self.0, other.0))
    }
}

/// Identifier of a user.
#[derive(Clone, Copy, Debug, PartialEq, Eq, Structural, Hash, Ord)]
pub struct UserId(pub u64);

impl UserId {
    /// The identifier with the raw number `id`.
    pub fn new(id: u64) -> (r: Self)
        ensures
            r.0 == id,
    {
        UserId(id)
    }

    /// The raw number of the identifier.
    pub fn get(self) -> (id: u64)
        ensures
            id == self.0,
    {
        self.0
    }
}

impl PartialOrd for UserId {
    fn partial_cmp(&self, other: &Self) -> (r: Option<Ordering>) {
        Some(order_raw(self.0, other.0))
    }
}

impl PartialOrdSpecImpl for UserId {
    open spec fn obeys_partial_cmp_spec() -> bool {
        true
    }

    open spec fn partial_cmp_spec(&self, other: &Self) -> Option<Ordering> {
        Some(raw_order(self.0, other.0))
    }
}

/// Identifier of an application.
#[derive(Clone, Copy, Debug, PartialEq, Eq, Structural, Hash, Ord)]
pub struct ApplicationId(pub u64);

impl ApplicationId {
    /// The identifier with the raw number `id`.
    pub fn new(id: u64) -> (r: Self)
        ensures
            r.0 == id,
    {
        ApplicationId(id)
    }

    /// The raw number of the identifier.
    pub fn get(self) -> (id: u64)
        ensures
            id == self.0,
    {
        self.0
    }
}

impl PartialOrd for ApplicationId {
    fn partial_cmp(&self, other: &Self) -> (r: Option<Ordering>) {
        Some(order_raw(self.0, other.0))
    }
}

impl PartialOrdSpecImpl for ApplicationId {
    open spec fn obeys_partial_cmp_spec() -> bool {
        true
    }

    open spec fn partial_cmp_spec(&self, other: &Self) -> Option<Ordering> {
        Some(raw_order(self.0, other.0))
    }
}

/// Identifier of a custom emoji.
#[derive(Clone, Copy, Debug, PartialEq, Eq, Structural, Hash, Ord)]
pub struct EmojiId(pub u64);

impl EmojiId {
    /// The identifier with the raw number `id`.
    pub fn new(id: u64) -> (r: Self)
        ensures
            r.0 == id,
    {
        EmojiId(id)
    }

    /// The raw number of the identifier.
    pub fn get(self) -> (id: u64)
        ensures
            id == self.0,
    {
        self.0
    }
}

impl PartialOrd for EmojiId {
    fn partial_cmp(&self, other: &Self) -> (r: Option<Ordering>) {
        Some(order_raw(self.0, other.0))
    }
}

impl PartialOrdSpecImpl for EmojiId {
    open spec fn obeys_partial_cmp_spec() -> bool {
        true
    }

    open spec fn partial_cmp_spec(&self, other: &Self) -> Option<Ordering> {
        Some(raw_order(self.0, other.0))
    }
}

} // verus!
