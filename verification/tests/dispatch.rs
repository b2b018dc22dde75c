use soundboard::builder::{EditGuildSoundboardSound, Field, Key, Value};
use soundboard::http::{settle, Action, Dispatch, Error, Event, HttpError, Method, Request, Route};
use soundboard::model::{ChannelId, GuildId, SoundboardSound, SoundboardSoundId, Volume};

fn request() -> Request<'static> {
    Request {
        method: Method::Post,
        route: Route::ChannelInvites { channel_id: ChannelId::new(5) },
        body: vec![Field { key: Key::MaxUses, value: Value::Integer(10) }],
        audit_log_reason: Some("why"),
    }
}

fn rejected() -> HttpError {
    HttpError::ValidationRejected { status: 403, message: "Missing Permissions".to_string() }
}

fn failed() -> HttpError {
    HttpError::TransportFailure { message: "connection reset".to_string() }
}

/// Runs the events through an execution of `request()`; gives the last state
/// and every action, in order.
fn run(events: Vec<Event<u32>>) -> (Dispatch<'static>, Vec<Action<'static, u32>>) {
    let mut state = Dispatch::new(request());
    let mut actions = Vec::new();
    for event in events {
        let (next, action) = state.step(event);
        state = next;
        actions.push(action);
    }
    (state, actions)
}

fn submissions(actions: &[Action<'static, u32>]) -> usize {
    actions.iter().filter(|action| matches!(action, Action::Submit(_))).count()
}

#[test]
fn new_execution_is_ready_with_its_request() {
    assert_eq!(Dispatch::new(request()), Dispatch::Ready(request()));
}

#[test]
fn begin_submits_the_request() {
    let (state, actions) = run(vec![Event::Begin]);
    assert_eq!(state, Dispatch::Waiting);
    assert_eq!(actions, vec![Action::Submit(request())]);
}

#[test]
fn success_is_returned_as_it_came() {
    let (state, actions) = run(vec![Event::Begin, Event::Reply(Ok(17))]);
    assert_eq!(state, Dispatch::Finished);
    assert_eq!(actions, vec![Action::Submit(request()), Action::Return(Ok(17))]);
}

#[test]
fn rejection_is_returned_wrapped() {
    let (state, actions) = run(vec![Event::Begin, Event::Reply(Err(rejected()))]);
    assert_eq!(state, Dispatch::Finished);
    assert_eq!(
        actions,
        vec![Action::Submit(request()), Action::Return(Err(Error::Http(rejected())))]
    );
}

#[test]
fn transport_failure_is_returned_wrapped() {
    let (state, actions) = run(vec![Event::Begin, Event::Reply(Err(failed()))]);
    assert_eq!(state, Dispatch::Finished);
    assert_eq!(
        actions,
        vec![Action::Submit(request()), Action::Return(Err(Error::Http(failed())))]
    );
}

#[test]
fn failure_is_not_retried() {
    let (state, actions) = run(vec![
        Event::Begin,
        Event::Reply(Err(failed())),
        Event::Begin,
        Event::Reply(Err(failed())),
        Event::Begin,
        Event::Reply(Ok(1)),
    ]);
    assert_eq!(state, Dispatch::Finished);
    assert_eq!(submissions(&actions), 1);
    assert_eq!(
        actions,
        vec![
            Action::Submit(request()),
            Action::Return(Err(Error::Http(failed()))),
            Action::Ignore,
            Action::Ignore,
            Action::Ignore,
            Action::Ignore,
        ]
    );
}

#[test]
fn one_submission_whatever_the_outcome() {
    for outcome in [Ok(1), Err(rejected()), Err(failed())] {
        let (state, actions) = run(vec![Event::Begin, Event::Reply(outcome)]);
        assert_eq!(state, Dispatch::Finished);
        assert_eq!(submissions(&actions), 1);
        assert_eq!(actions[0], Action::Submit(request()));
    }
}

#[test]
fn begin_twice_submits_once() {
    let (state, actions) = run(vec![Event::Begin, Event::Begin]);
    assert_eq!(state, Dispatch::Waiting);
    assert_eq!(actions, vec![Action::Submit(request()), Action::Ignore]);
}

#[test]
fn reply_before_begin_is_ignored() {
    let (state, actions) = run(vec![Event::Reply(Ok(1))]);
    assert_eq!(state, Dispatch::Ready(request()));
    assert_eq!(actions, vec![Action::Ignore]);
    assert_eq!(submissions(&actions), 0);

    let (state, actions) = run(vec![Event::Reply(Err(failed())), Event::Begin]);
    assert_eq!(state, Dispatch::Waiting);
    assert_eq!(actions, vec![Action::Ignore, Action::Submit(request())]);
}

#[test]
fn no_events_no_actions() {
    let (state, actions) = run(Vec::new());
    assert_eq!(state, Dispatch::Ready(request()));
    assert_eq!(actions, Vec::new());
}

#[test]
fn settle_passes_success_and_wraps_failure() {
    assert_eq!(settle::<u32>(Ok(5)), Ok(5));
    assert_eq!(settle::<u32>(Err(rejected())), Err(Error::Http(rejected())));
    assert_eq!(settle::<()>(Err(failed())), Err(Error::Http(failed())));
    assert_eq!(settle::<()>(Ok(())), Ok(()));
}

#[test]
fn error_gives_back_its_cause() {
    assert_eq!(Error::Http(rejected()).into_cause(), rejected());
    assert_eq!(Error::Http(failed()).into_cause(), failed());
}

fn text_of(value: &serde_json::Value, key: &str) -> String {
    value[key].as_str().unwrap().to_string()
}

fn id_of(value: &serde_json::Value, key: &str) -> u64 {
    value[key].as_str().unwrap().parse().unwrap()
}

#[test]
fn edit_sound_end_to_end() {
    let execution = EditGuildSoundboardSound::new()
        .name("siren".to_string())
        .volume(Volume::from_bits(0.5f64.to_bits()))
        .execute(GuildId::new(7), SoundboardSoundId::new(42));

    let (waiting, action) = execution.step::<SoundboardSound>(Event::Begin);
    let submitted = match action {
        Action::Submit(request) => request,
        other => panic!("no submission: {:?}", other),
    };
    assert_eq!(submitted.method, Method::Patch);
    assert_eq!(submitted.route.path(), "/guilds/7/soundboard-sounds/42");
    assert_eq!(
        submitted.body,
        vec![
            Field { key: Key::Name, value: Value::Text("siren".to_string()) },
            Field { key: Key::Volume, value: Value::Number(Volume::from_bits(0.5f64.to_bits())) },
        ]
    );

    let answer: serde_json::Value = serde_json::from_str(
        r#"{"name":"siren","sound_id":"42","volume":0.5,"emoji_id":null,"emoji_name":null,"guild_id":"7","available":true}"#,
    )
    .unwrap();
    let sound = SoundboardSound {
        name: text_of(&answer, "name"),
        id: SoundboardSoundId::new(id_of(&answer, "sound_id")),
        volume: Volume::from_bits(answer["volume"].as_f64().unwrap().to_bits()),
        emoji_id: None,
        emoji_unicode: None,
        guild_id: Some(GuildId::new(id_of(&answer, "guild_id"))),
        available: answer["available"].as_bool().unwrap(),
        user: None,
    };

    let (finished, action) = waiting.step(Event::Reply(Ok(sound)));
    assert_eq!(finished, Dispatch::Finished);
    match action {
        Action::Return(Ok(sound)) => {
            assert_eq!(sound.name, "siren");
            assert_eq!(f64::from_bits(sound.volume.to_bits()), 0.5);
            assert_eq!(sound.id, SoundboardSoundId::new(42));
            assert_eq!(sound.guild_id, Some(GuildId::new(7)));
            assert!(sound.available());
        }
        other => panic!("no sound: {:?}", other),
    }
}
