//! What belongs to invites.

use vstd::prelude::*;

verus! {

/// What a voice-channel invite points its guest at.
#[derive(Clone, Copy, Debug, PartialEq, Eq, Structural, Hash)]
#[non_exhaustive]
pub enum InviteTargetType {
    /// The stream of a user in the channel.
    Stream,
    /// An application embedded in the channel.
    EmbeddedApplication,
    /// A kind this crate has no name for, by its wire number.
    Unknown(u8),
}

impl InviteTargetType {
    /// The number that stands for the kind on the wire.
    pub open spec fn wire_number(self) -> u8 {
        match self {
            InviteTargetType::Stream => 1,
            InviteTargetType::EmbeddedApplication => 2,
            InviteTargetType::Unknown(n) => n,
        }
    }

    /// The number that stands for the kind on the wire.
    pub fn number(self) -> (n: u8)
        ensures
            n == self.wire_number(),
    {
        match self {
            InviteTargetType::Stream => 1,
            InviteTargetType::EmbeddedApplication => 2,
            InviteTargetType::Unknown(n) => n,
        }
    }
}

} // verus!
