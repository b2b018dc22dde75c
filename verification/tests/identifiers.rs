use soundboard::model::{
    ApplicationId, ChannelId, EmojiId, GuildId, InviteTargetType, SoundboardSound,
    SoundboardSoundId, UserId, Volume,
};
use std::collections::HashSet;

#[test]
fn identifier_gives_back_its_number() {
    assert_eq!(SoundboardSoundId::new(42).get(), 42);
    assert_eq!(GuildId::new(7).get(), 7);
    assert_eq!(ChannelId::new(0).get(), 0);
    assert_eq!(UserId::new(u64::MAX).get(), u64::MAX);
    assert_eq!(ApplicationId::new(773336526917861400).get(), 773336526917861400);
    assert_eq!(EmojiId::new(1).get(), 1);
}

#[test]
fn identifiers_are_equal_as_their_numbers_are() {
    assert_eq!(GuildId::new(7), GuildId::new(7));
    assert_ne!(GuildId::new(7), GuildId::new(8));
    assert_eq!(SoundboardSoundId::new(42), SoundboardSoundId(42));
}

#[test]
fn identifiers_are_ordered_as_their_numbers_are() {
    assert!(GuildId::new(7) < GuildId::new(8));
    assert!(GuildId::new(8) > GuildId::new(7));
    assert!(GuildId::new(7) <= GuildId::new(7));
    assert!(!(UserId::new(u64::MAX) < UserId::new(0)));
    assert_eq!(
        ChannelId::new(3).partial_cmp(&ChannelId::new(3)),
        Some(std::cmp::Ordering::Equal)
    );
    assert_eq!(ChannelId::new(3).cmp(&ChannelId::new(4)), std::cmp::Ordering::Less);
    assert_eq!(EmojiId::new(9).max(EmojiId::new(2)), EmojiId::new(9));
}

#[test]
fn identifiers_hash_as_their_numbers_do() {
    let mut seen = HashSet::new();
    assert!(seen.insert(SoundboardSoundId::new(42)));
    assert!(!seen.insert(SoundboardSoundId::new(42)));
    assert!(seen.insert(SoundboardSoundId::new(43)));
    assert_eq!(seen.len(), 2);
}

#[test]
fn invite_target_types_have_their_wire_numbers() {
    assert_eq!(InviteTargetType::Stream.number(), 1);
    assert_eq!(InviteTargetType::EmbeddedApplication.number(), 2);
    assert_eq!(InviteTargetType::Unknown(9).number(), 9);
    assert_eq!(InviteTargetType::Unknown(0).number(), 0);
}

#[test]
fn volume_keeps_its_bit_pattern() {
    let half = Volume::from_bits(0.5f64.to_bits());
    assert_eq!(half.to_bits(), 0x3FE0_0000_0000_0000);
    assert_eq!(f64::from_bits(half.to_bits()), 0.5);
    assert_eq!(Volume::from_bits(0).to_bits(), 0);
    assert_eq!(Volume::from_bits(u64::MAX).to_bits(), u64::MAX);
    assert_eq!(half, Volume::from_bits(0.5f64.to_bits()));
    assert_ne!(half, Volume::from_bits(1.0f64.to_bits()));
}

#[test]
fn sound_availability_is_read_and_set() {
    let mut sound = SoundboardSound {
        name: "siren".to_string(),
        id: SoundboardSoundId::new(42),
        volume: Volume::from_bits(1.0f64.to_bits()),
        emoji_id: None,
        emoji_unicode: Some("📣".to_string()),
        guild_id: Some(GuildId::new(7)),
        available: true,
        user: Some(UserId::new(3)),
    };
    assert!(sound.available());
    let before = sound.clone();
    sound.set_available(false);
    assert!(!sound.available());
    assert_eq!(sound, SoundboardSound { available: false, ..before });
    sound.set_available(true);
    assert!(sound.available());
}
