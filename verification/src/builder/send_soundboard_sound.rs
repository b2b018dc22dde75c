//! The builder of a request to play a soundboard sound.

use crate::builder::draft::Draft;
use crate::builder::payload::{
    emit, keys_of, value_of, Field, FieldView, Key, Slot, Value, ValueView,
};
use crate::http::dispatch::Dispatch;
use crate::http::request::{Request, RequestView};
use crate::http::route::{Method, Route};
use crate::model::id::{ChannelId, GuildId, SoundboardSoundId};
use vstd::prelude::*;

verus! {

/// A builder of a request to play a soundboard sound in a voice channel.
///
/// The sound is always named. The guild it comes from is named only where
/// the sound belongs to another guild than the channel.
#[derive(Clone, Debug)]
#[must_use]
pub struct SendSoundboardSound {
    sound_id: SoundboardSoundId,
    source_guild_id: Option<GuildId>,
}

impl View for SendSoundboardSound {
    type V = Draft;

    closed spec fn view(&self) -> Draft {
        Draft::empty().set(Key::SoundId, ValueView::Id(self.sound_id.0)).given(
            Key::SourceGuildId,
            match self.source_guild_id {
                Some(id) => Some(ValueView::Id(id.0)),
                None => None,
            },
        )
    }
}

impl SendSoundboardSound {
    /// The wire fields of the request, in the order in which the payload has
    /// them.
    pub open spec fn layout() -> Seq<Key> {
        seq![Key::SoundId, Key::SourceGuildId]
    }

    /// The layout names no key twice; the builder sets no key outside it, it
    /// always has the sound set, and it never has a reason for the audit log.
    pub proof fn lemma_layout(&self)
        ensures
            Self::layout().no_duplicates(),
            forall|key: Key| #[trigger] self@.fields.contains_key(key) ==> Self::layout().contains(key),
            self@.fields.contains_key(Key::SoundId),
            self@.audit_log_reason is None,
    {
        let layout = Self::layout();
        assert(layout[0] == Key::SoundId);
        assert(layout[1] == Key::SourceGuildId);
    }

    /// The payload of this builder holds exactly what was set: it gives each
    /// key that was set the value it was last set to, gives nothing for any
    /// other key, and has no key twice.
    pub proof fn law_payload_is_what_was_set(&self, key: Key)
        ensures
            value_of(self@.payload(Self::layout()), key) == (if self@.fields.contains_key(key) {
                Some(self@.fields[key])
            } else {
                None
            }),
            keys_of(self@.payload(Self::layout())).no_duplicates(),
    {
        self.lemma_layout();
        self@.law_payload_holds_what_was_set(Self::layout(), key);
        self@.law_no_key_twice(Self::layout());
    }

    /// With only the sound given, the payload is the sound and nothing else.
    pub proof fn law_new_sends_the_sound(sound_id: SoundboardSoundId)
        ensures
            Draft::empty().set(Key::SoundId, ValueView::Id(sound_id.0)).payload(Self::layout())
                == seq![FieldView { key: Key::SoundId, value: ValueView::Id(sound_id.0) }],
    {
        let draft = Draft::empty().set(Key::SoundId, ValueView::Id(sound_id.0));
        let l2 = Self::layout();
        let l1 = l2.drop_last();
        let l0 = l1.drop_last();
        draft.lemma_payload_step(l2);
        draft.lemma_payload_step(l1);
        assert(draft.payload(l0) =~= Seq::<FieldView>::empty());
        assert(draft.payload(l2) =~= seq![
            FieldView { key: Key::SoundId, value: ValueView::Id(sound_id.0) },
        ]);
    }

    /// A builder for the sound `sound_id`, with nothing else set.
    pub fn new(sound_id: SoundboardSoundId) -> (r: Self)
        ensures
            r@ == Draft::empty().set(Key::SoundId, ValueView::Id(sound_id.0)),
    {
        SendSoundboardSound { sound_id, source_guild_id: None }
    }

    /// Names another sound in place of the one the builder was made with.
    pub fn sound_id(self, sound_id: SoundboardSoundId) -> (r: Self)
        ensures
            r@ == self@.set(Key::SoundId, ValueView::Id(sound_id.0)),
    {
        let mut next = self;
        next.sound_id = sound_id;
        next
    }

    /// Names the guild that the sound comes from.
    pub fn source_guild_id(self, source_guild_id: GuildId) -> (r: Self)
        ensures
            r@ == self@.set(Key::SourceGuildId, ValueView::Id(source_guild_id.0)),
    {
        let mut next = self;
        next.source_guild_id = Some(source_guild_id);
        next
    }

    /// The payload: the sound, and the guild it comes from if that was set.
    pub fn payload(&self) -> (fields: Vec<Field>)
        ensures
            fields.deep_view() == self@.payload(Self::layout()),
    {
        let mut slots: Vec<Slot> = Vec::new();
        slots.push(Slot { key: Key::SoundId, value: Some(Value::Id(self.sound_id.get())) });
        slots.push(
            Slot {
                key: Key::SourceGuildId,
                value: match self.source_guild_id {
                    Some(id) => Some(Value::Id(id.get())),
                    None => None,
                },
            },
        );
        assert(slots.deep_view() =~= self@.row(Self::layout()));
        emit(slots)
    }

    /// Begins the playing of the sound in the voice channel `channel_id`.
    ///
    /// The builder is used up. What comes back is the execution, with nothing
    /// sent yet: its request posts the payload to the channel, with no reason
    /// for the audit log. A success has no value to return.
    pub fn execute(self, channel_id: ChannelId) -> (execution: Dispatch<'static>)
        ensures
            execution matches Dispatch::Ready(request) && request@ == (RequestView {
                method: Method::Post,
                route: Route::ChannelSendSoundboardSound { channel_id },
                body: self@.payload(Self::layout()),
                audit_log_reason: None,
            }),
    {
        let body = self.payload();
        Dispatch::new(
            Request {
                method: Method::Post,
                route: Route::ChannelSendSoundboardSound { channel_id },
                body,
                audit_log_reason: None,
            },
        )
    }
}

} // verus!
