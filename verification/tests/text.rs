use soundboard::http::{Method, Route};
use soundboard::model::{ChannelId, GuildId, SoundboardSoundId};
use soundboard::text::push_decimal;

fn decimal_of(n: u64) -> String {
    let mut out = String::new();
    push_decimal(&mut out, n);
    out
}

#[test]
fn decimal_of_zero_is_one_digit() {
    assert_eq!(decimal_of(0), "0");
}

#[test]
fn decimal_of_single_digits() {
    for (n, text) in ["0", "1", "2", "3", "4", "5", "6", "7", "8", "9"].iter().enumerate() {
        assert_eq!(decimal_of(n as u64), *text);
    }
}

#[test]
fn decimal_of_larger_numbers() {
    assert_eq!(decimal_of(10), "10");
    assert_eq!(decimal_of(42), "42");
    assert_eq!(decimal_of(100), "100");
    assert_eq!(decimal_of(1_000_000_007), "1000000007");
    assert_eq!(decimal_of(773336526917861400), "773336526917861400");
    assert_eq!(decimal_of(u64::MAX), "18446744073709551615");
}

#[test]
fn decimal_agrees_with_the_standard_formatting() {
    let mut n: u64 = 1;
    for _ in 0..64 {
        assert_eq!(decimal_of(n), n.to_string());
        assert_eq!(decimal_of(n - 1), (n - 1).to_string());
        n = n.wrapping_mul(3).wrapping_add(7);
    }
}

#[test]
fn decimal_is_appended_to_what_is_there() {
    let mut out = String::from("id=");
    push_decimal(&mut out, 907);
    assert_eq!(out, "id=907");
    push_decimal(&mut out, 0);
    assert_eq!(out, "id=9070");
}

#[test]
fn sound_url_names_the_sound() {
    assert_eq!(
        SoundboardSoundId::new(42).url(),
        "https://cdn.discordapp.com/soundboard-sounds/42"
    );
    assert_eq!(
        SoundboardSoundId::new(0).url(),
        "https://cdn.discordapp.com/soundboard-sounds/0"
    );
    assert_eq!(
        SoundboardSoundId::new(1155123456789012345).url(),
        "https://cdn.discordapp.com/soundboard-sounds/1155123456789012345"
    );
}

#[test]
fn routes_have_their_paths() {
    assert_eq!(
        Route::GuildSoundboardSounds { guild_id: GuildId::new(7) }.path(),
        "/guilds/7/soundboard-sounds"
    );
    assert_eq!(
        Route::GuildSoundboardSound {
            guild_id: GuildId::new(7),
            sound_id: SoundboardSoundId::new(42)
        }
        .path(),
        "/guilds/7/soundboard-sounds/42"
    );
    assert_eq!(
        Route::ChannelInvites { channel_id: ChannelId::new(81384788765712384) }.path(),
        "/channels/81384788765712384/invites"
    );
    assert_eq!(
        Route::ChannelSendSoundboardSound { channel_id: ChannelId::new(5) }.path(),
        "/channels/5/send-soundboard-sound"
    );
}

#[test]
fn methods_have_their_names() {
    assert_eq!(Method::Post.as_str(), "POST");
    assert_eq!(Method::Patch.as_str(), "PATCH");
}
