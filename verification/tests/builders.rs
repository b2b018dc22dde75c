use soundboard::builder::{
    find, CreateGuildSoundboardSound, CreateInvite, EditGuildSoundboardSound, Field, Key,
    SendSoundboardSound, Value,
};
use soundboard::http::{Action, Dispatch, Event, Method, Request, Route};
use soundboard::model::{
    ApplicationId, ChannelId, EmojiId, GuildId, InviteTargetType, SoundboardSoundId, UserId,
    Volume,
};

fn volume(level: f64) -> Volume {
    Volume::from_bits(level.to_bits())
}

fn json(fields: &[Field]) -> String {
    let mut object = serde_json::Map::new();
    for field in fields {
        let value = match &field.value {
            Value::Bool(b) => serde_json::Value::Bool(*b),
            Value::Integer(n) => serde_json::Value::from(*n),
            Value::Number(v) => serde_json::Value::from(f64::from_bits(v.to_bits())),
            Value::Text(s) => serde_json::Value::String(s.clone()),
            Value::Id(id) => serde_json::Value::String(id.to_string()),
        };
        let previous = object.insert(field.key.as_str().to_string(), value);
        assert!(previous.is_none(), "a key stands twice in the payload");
    }
    serde_json::to_string(&serde_json::Value::Object(object)).unwrap()
}

fn keys(fields: &[Field]) -> Vec<Key> {
    fields.iter().map(|field| field.key).collect()
}

fn request_of(execution: Dispatch<'_>) -> Request<'_> {
    match execution {
        Dispatch::Ready(request) => request,
        other => panic!("the execution is not ready: {:?}", other),
    }
}

#[test]
fn invite_with_nothing_set_has_an_empty_payload() {
    assert_eq!(CreateInvite::new().payload(), Vec::new());
    assert_eq!(json(&CreateInvite::new().payload()), "{}");
    assert_eq!(json(&CreateInvite::default().payload()), "{}");
}

#[test]
fn invite_with_max_uses_has_only_max_uses() {
    let payload = CreateInvite::new().max_uses(10).payload();
    assert_eq!(payload, vec![Field { key: Key::MaxUses, value: Value::Integer(10) }]);
    assert_eq!(json(&payload), r#"{"max_uses":10}"#);
}

#[test]
fn invite_with_max_age_and_max_uses() {
    let payload = CreateInvite::new().max_age(3600).max_uses(10).payload();
    assert_eq!(json(&payload), r#"{"max_age":3600,"max_uses":10}"#);
}

#[test]
fn invite_with_everything_set_follows_the_layout() {
    let payload = CreateInvite::new()
        .target_application_id(ApplicationId::new(755600276941176913))
        .target_user_id(UserId::new(3))
        .target_type(InviteTargetType::EmbeddedApplication)
        .unique(true)
        .temporary(false)
        .max_uses(u8::MAX)
        .max_age(u32::MAX)
        .payload();
    assert_eq!(
        payload,
        vec![
            Field { key: Key::MaxAge, value: Value::Integer(4294967295) },
            Field { key: Key::MaxUses, value: Value::Integer(255) },
            Field { key: Key::Temporary, value: Value::Bool(false) },
            Field { key: Key::Unique, value: Value::Bool(true) },
            Field { key: Key::TargetType, value: Value::Integer(2) },
            Field { key: Key::TargetUserId, value: Value::Id(3) },
            Field { key: Key::TargetApplicationId, value: Value::Id(755600276941176913) },
        ]
    );
}

#[test]
fn invite_target_type_goes_by_its_wire_number() {
    let stream = CreateInvite::new().target_type(InviteTargetType::Stream).payload();
    assert_eq!(json(&stream), r#"{"target_type":1}"#);
    let other = CreateInvite::new().target_type(InviteTargetType::Unknown(7)).payload();
    assert_eq!(json(&other), r#"{"target_type":7}"#);
}

#[test]
fn unset_fields_are_left_out_not_null() {
    let payload = CreateInvite::new().temporary(true).payload();
    assert_eq!(keys(&payload), vec![Key::Temporary]);
    for key in [
        Key::MaxAge,
        Key::MaxUses,
        Key::Unique,
        Key::TargetType,
        Key::TargetUserId,
        Key::TargetApplicationId,
    ] {
        assert_eq!(find(&payload, key), None);
    }
    assert!(!json(&payload).contains("null"));
}

#[test]
fn last_write_wins() {
    let payload = CreateInvite::new().max_age(60).max_uses(1).max_age(3600).payload();
    assert_eq!(
        payload,
        vec![
            Field { key: Key::MaxAge, value: Value::Integer(3600) },
            Field { key: Key::MaxUses, value: Value::Integer(1) },
        ]
    );
    let once = CreateInvite::new().max_uses(1).max_age(3600).payload();
    assert_eq!(payload, once);

    let edit = EditGuildSoundboardSound::new()
        .name("horn".to_string())
        .name("siren".to_string())
        .volume(volume(1.0))
        .volume(volume(0.25))
        .payload();
    assert_eq!(json(&edit), r#"{"name":"siren","volume":0.25}"#);
}

#[test]
fn audit_log_reason_is_not_in_the_payload() {
    let plain = CreateInvite::new().max_uses(10);
    let annotated = CreateInvite::new().max_uses(10).audit_log_reason("spring cleaning");
    assert_eq!(plain.payload(), annotated.payload());
    assert_eq!(json(&annotated.payload()), r#"{"max_uses":10}"#);
    assert_eq!(json(&CreateInvite::new().audit_log_reason("max_age").payload()), "{}");

    let edit = EditGuildSoundboardSound::new().audit_log_reason("because");
    assert_eq!(json(&edit.payload()), "{}");
    let create = CreateGuildSoundboardSound::new("siren".to_string(), "data".to_string())
        .audit_log_reason("because");
    assert_eq!(json(&create.payload()), r#"{"name":"siren","sound":"data"}"#);
}

#[test]
fn audit_log_reason_travels_beside_the_payload() {
    let request = request_of(
        CreateInvite::new()
            .audit_log_reason("first")
            .max_uses(10)
            .audit_log_reason("second")
            .execute(ChannelId::new(5)),
    );
    assert_eq!(request.audit_log_reason, Some("second"));
    assert_eq!(request.method, Method::Post);
    assert_eq!(request.route, Route::ChannelInvites { channel_id: ChannelId::new(5) });
    assert_eq!(request.route.path(), "/channels/5/invites");
    assert_eq!(json(&request.body), r#"{"max_uses":10}"#);

    let silent = request_of(CreateInvite::new().execute(ChannelId::new(5)));
    assert_eq!(silent.audit_log_reason, None);
    assert_eq!(silent.body, Vec::new());
}

#[test]
fn empty_value_is_set_not_left_out() {
    let never = EditGuildSoundboardSound::new().payload();
    let empty = EditGuildSoundboardSound::new().emoji_name(String::new()).payload();
    assert_eq!(find(&never, Key::EmojiName), None);
    assert_eq!(find(&empty, Key::EmojiName), Some(&Value::Text(String::new())));
    assert_eq!(json(&never), "{}");
    assert_eq!(json(&empty), r#"{"emoji_name":""}"#);
    assert_ne!(never, empty);

    let zero = CreateInvite::new().max_age(0).max_uses(0).temporary(false).payload();
    assert_eq!(json(&zero), r#"{"max_age":0,"max_uses":0,"temporary":false}"#);
}

#[test]
fn edit_sound_with_name_and_volume() {
    let builder = EditGuildSoundboardSound::new().name("siren".to_string()).volume(volume(0.5));
    assert_eq!(json(&builder.payload()), r#"{"name":"siren","volume":0.5}"#);
    assert_eq!(keys(&builder.payload()), vec![Key::Name, Key::Volume]);

    let request = request_of(builder.execute(GuildId::new(7), SoundboardSoundId::new(42)));
    assert_eq!(request.method, Method::Patch);
    assert_eq!(
        request.route,
        Route::GuildSoundboardSound { guild_id: GuildId::new(7), sound_id: SoundboardSoundId::new(42) }
    );
    assert_eq!(request.route.path(), "/guilds/7/soundboard-sounds/42");
    assert_eq!(request.method.as_str(), "PATCH");
    assert_eq!(json(&request.body), r#"{"name":"siren","volume":0.5}"#);
    assert_eq!(request.audit_log_reason, None);
}

#[test]
fn edit_sound_with_everything_set() {
    let payload = EditGuildSoundboardSound::default()
        .emoji_name("📣".to_string())
        .emoji_id(EmojiId::new(11))
        .volume(volume(1.0))
        .name("siren".to_string())
        .payload();
    assert_eq!(
        payload,
        vec![
            Field { key: Key::Name, value: Value::Text("siren".to_string()) },
            Field { key: Key::Volume, value: Value::Number(volume(1.0)) },
            Field { key: Key::EmojiId, value: Value::Id(11) },
            Field { key: Key::EmojiName, value: Value::Text("📣".to_string()) },
        ]
    );
    assert_eq!(
        json(&payload),
        r#"{"emoji_id":"11","emoji_name":"📣","name":"siren","volume":1.0}"#
    );
}

#[test]
fn payload_is_the_same_each_time_it_is_asked_for() {
    let builder = EditGuildSoundboardSound::new()
        .volume(volume(0.75))
        .name("siren".to_string())
        .emoji_id(EmojiId::new(11));
    let first = builder.payload();
    let second = builder.payload();
    assert_eq!(first, second);
    let request = request_of(builder.execute(GuildId::new(1), SoundboardSoundId::new(2)));
    assert_eq!(request.body, first);
}

#[test]
fn create_sound_always_has_name_and_sound() {
    let builder = CreateGuildSoundboardSound::new(
        "siren".to_string(),
        "data:audio/ogg;base64,T2dnUw==".to_string(),
    );
    assert_eq!(
        builder.payload(),
        vec![
            Field { key: Key::Name, value: Value::Text("siren".to_string()) },
            Field {
                key: Key::Sound,
                value: Value::Text("data:audio/ogg;base64,T2dnUw==".to_string())
            },
        ]
    );
    assert_eq!(
        json(&builder.payload()),
        r#"{"name":"siren","sound":"data:audio/ogg;base64,T2dnUw=="}"#
    );
}

#[test]
fn create_sound_replaces_name_and_sound() {
    let payload = CreateGuildSoundboardSound::new("horn".to_string(), "AAAA".to_string())
        .sound("BBBB".to_string())
        .name("siren".to_string())
        .payload();
    assert_eq!(json(&payload), r#"{"name":"siren","sound":"BBBB"}"#);
}

#[test]
fn create_sound_with_everything_set() {
    let builder = CreateGuildSoundboardSound::new("siren".to_string(), "AAAA".to_string())
        .emoji_name("📣".to_string())
        .emoji_id(EmojiId::new(11))
        .volume(volume(0.5))
        .audit_log_reason("new sound");
    assert_eq!(
        keys(&builder.payload()),
        vec![Key::Name, Key::Sound, Key::Volume, Key::EmojiId, Key::EmojiName]
    );
    let request = request_of(builder.execute(GuildId::new(7)));
    assert_eq!(request.method, Method::Post);
    assert_eq!(request.route.path(), "/guilds/7/soundboard-sounds");
    assert_eq!(request.audit_log_reason, Some("new sound"));
    assert_eq!(
        json(&request.body),
        r#"{"emoji_id":"11","emoji_name":"📣","name":"siren","sound":"AAAA","volume":0.5}"#
    );
}

#[test]
fn send_sound_always_has_the_sound() {
    let builder = SendSoundboardSound::new(SoundboardSoundId::new(42));
    assert_eq!(builder.payload(), vec![Field { key: Key::SoundId, value: Value::Id(42) }]);
    assert_eq!(json(&builder.payload()), r#"{"sound_id":"42"}"#);
}

#[test]
fn send_sound_with_source_guild() {
    let builder = SendSoundboardSound::new(SoundboardSoundId::new(42))
        .source_guild_id(GuildId::new(7))
        .sound_id(SoundboardSoundId::new(43));
    assert_eq!(
        builder.payload(),
        vec![
            Field { key: Key::SoundId, value: Value::Id(43) },
            Field { key: Key::SourceGuildId, value: Value::Id(7) },
        ]
    );
    let request = request_of(builder.execute(ChannelId::new(5)));
    assert_eq!(request.method, Method::Post);
    assert_eq!(request.route.path(), "/channels/5/send-soundboard-sound");
    assert_eq!(request.audit_log_reason, None);
    assert_eq!(json(&request.body), r#"{"sound_id":"43","source_guild_id":"7"}"#);
}

#[test]
fn execute_hands_the_request_over_on_begin() {
    let execution = CreateInvite::new().max_uses(10).execute(ChannelId::new(5));
    let (state, action) = execution.step::<()>(Event::Begin);
    assert_eq!(state, Dispatch::Waiting);
    match action {
        Action::Submit(request) => {
            assert_eq!(json(&request.body), r#"{"max_uses":10}"#);
            assert_eq!(request.route.path(), "/channels/5/invites");
        }
        other => panic!("no submission: {:?}", other),
    }
}
