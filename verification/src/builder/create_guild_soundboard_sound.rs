//! The builder of a new soundboard sound of a guild.

use crate::builder::draft::Draft;
use crate::builder::payload::{
    emit, keys_of, value_of, Field, FieldView, Key, Slot, Value, ValueView,
};
use crate::http::dispatch::Dispatch;
use crate::http::request::{Request, RequestView};
use crate::http::route::{Method, Route};
use crate::model::id::{EmojiId, GuildId};
use crate::model::volume::Volume;
use vstd::prelude::*;

verus! {

/// A builder of a new soundboard sound of a guild.
///
/// The name and the sound are given when the builder is made and are always
/// in the payload; they can be replaced, not taken away. The sound is the
/// encoded text of an attachment, as the attachment's encoder gives it; the
/// builder passes it on unread. The other fields are in the payload only if
/// they were set.
///
/// The bounds of the values (a name of 2 to 32 characters, a volume from 0 to
/// 1, the size and kind of the sound) are the remote service's to enforce,
/// not this builder's.
#[derive(Clone, Debug)]
#[must_use]
pub struct CreateGuildSoundboardSound<'a> {
    name: String,
    sound: String,
    volume: Option<Volume>,
    emoji_id: Option<EmojiId>,
    emoji_name: Option<String>,
    audit_log_reason: Option<&'a str>,
}

impl<'a> View for CreateGuildSoundboardSound<'a> {
    type V = Draft;

    closed spec fn view(&self) -> Draft {
        Draft {
            fields: Map::empty(),
            audit_log_reason: match self.audit_log_reason {
                Some(reason) => Some(reason@),
                None => None,
            },
        }.set(Key::Name, ValueView::Text(self.name@)).set(
            Key::Sound,
            ValueView::Text(self.sound@),
        ).given(
            Key::Volume,
            match self.volume {
                Some(volume) => Some(ValueView::Number(volume)),
                None => None,
            },
        ).given(
            Key::EmojiId,
            match self.emoji_id {
                Some(id) => Some(ValueView::Id(id.0)),
                None => None,
            },
        ).given(
            Key::EmojiName,
            match self.emoji_name {
                Some(name) => Some(ValueView::Text(name@)),
                None => None,
            },
        )
    }
}

impl<'a> CreateGuildSoundboardSound<'a> {
    /// The wire fields of a new sound, in the order in which the payload has
    /// them.
    pub open spec fn layout() -> Seq<Key> {
        seq![Key::Name, Key::Sound, Key::Volume, Key::EmojiId, Key::EmojiName]
    }

    /// The layout names no key twice; the builder sets no key outside it, and
    /// it always has the name and the sound set.
    pub proof fn lemma_layout(&self)
        ensures
            Self::layout().no_duplicates(),
            forall|key: Key| #[trigger] self@.fields.contains_key(key) ==> Self::layout().contains(key),
            self@.fields.contains_key(Key::Name),
            self@.fields.contains_key(Key::Sound),
    {
        let layout = Self::layout();
        assert(layout[0] == Key::Name);
        assert(layout[1] == Key::Sound);
        assert(layout[2] == Key::Volume);
        assert(layout[3] == Key::EmojiId);
        assert(layout[4] == Key::EmojiName);
    }

    /// The payload of this builder holds exactly what was set: it gives each
    /// key that was set the value it was last set to, gives nothing for any
    /// other key, and has no key twice.
    pub proof fn law_payload_is_what_was_set(&self, key: Key)
        ensures
            value_of(self@.payload(Self::layout()), key) == (if self@.fields.contains_key(key) {
                Some(self@.fields[key])
            } else {
                None
            }),
            keys_of(self@.payload(Self::layout())).no_duplicates(),
    {
        self.lemma_layout();
        self@.law_payload_holds_what_was_set(Self::layout(), key);
        self@.law_no_key_twice(Self::layout());
    }

    /// With only the name and the sound given, the payload is those two and
    /// nothing else.
    pub proof fn law_new_sends_name_and_sound(name: Seq<char>, sound: Seq<char>)
        ensures
            Draft::empty().set(Key::Name, ValueView::Text(name)).set(
                Key::Sound,
                ValueView::Text(sound),
            ).payload(Self::layout()) == seq![
                FieldView { key: Key::Name, value: ValueView::Text(name) },
                FieldView { key: Key::Sound, value: ValueView::Text(sound) },
            ],
    {
        let draft = Draft::empty().set(Key::Name, ValueView::Text(name)).set(
            Key::Sound,
            ValueView::Text(sound),
        );
        let l5 = Self::layout();
        let l4 = l5.drop_last();
        let l3 = l4.drop_last();
        let l2 = l3.drop_last();
        let l1 = l2.drop_last();
        let l0 = l1.drop_last();
        draft.lemma_payload_step(l5);
        draft.lemma_payload_step(l4);
        draft.lemma_payload_step(l3);
        draft.lemma_payload_step(l2);
        draft.lemma_payload_step(l1);
        assert(draft.payload(l0) =~= Seq::<FieldView>::empty());
        assert(draft.payload(l5) =~= seq![
            FieldView { key: Key::Name, value: ValueView::Text(name) },
            FieldView { key: Key::Sound, value: ValueView::Text(sound) },
        ]);
    }

    /// A builder for a sound with the name `name` and the encoded sound
    /// `sound`, with nothing else set.
    pub fn new(name: String, sound: String) -> (r: Self)
        ensures
            r@ == Draft::empty().set(Key::Name, ValueView::Text(name@)).set(
                Key::Sound,
                ValueView::Text(sound@),
            ),
    {
        CreateGuildSoundboardSound {
            name,
            sound,
            volume: None,
            emoji_id: None,
            emoji_name: None,
            audit_log_reason: None,
        }
    }

    /// Replaces the name that the builder was made with.
    pub fn name(self, name: String) -> (r: Self)
        ensures
            r@ == self@.set(Key::Name, ValueView::Text(name@)),
    {
        let mut next = self;
        next.name = name;
        next
    }

    /// Replaces the encoded sound that the builder was made with.
    pub fn sound(self, sound: String) -> (r: Self)
        ensures
            r@ == self@.set(Key::Sound, ValueView::Text(sound@)),
    {
        let mut next = self;
        next.sound = sound;
        next
    }

    /// Sets the volume of the sound.
    pub fn volume(self, volume: Volume) -> (r: Self)
        ensures
            r@ == self@.set(Key::Volume, ValueView::Number(volume)),
    {
        let mut next = self;
        next.volume = Some(volume);
        next
    }

    /// Sets the custom emoji of the sound.
    pub fn emoji_id(self, emoji_id: EmojiId) -> (r: Self)
        ensures
            r@ == self@.set(Key::EmojiId, ValueView::Id(emoji_id.0)),
    {
        let mut next = self;
        next.emoji_id = Some(emoji_id);
        next
    }

    /// Sets the standard emoji of the sound, by its unicode character. The
    /// empty text is set like any other: it stands in the payload, empty.
    pub fn emoji_name(self, emoji_name: String) -> (r: Self)
        ensures
            r@ == self@.set(Key::EmojiName, ValueView::Text(emoji_name@)),
    {
        let mut next = self;
        next.emoji_name = Some(emoji_name);
        next
    }

    /// Sets the reason that the request carries for the audit log.
    pub fn audit_log_reason(self, reason: &'a str) -> (r: Self)
        ensures
            r@ == self@.annotate(reason@),
    {
        let mut next = self;
        next.audit_log_reason = Some(reason);
        next
    }

    /// The payload: the name, the sound, and the other fields that were set,
    /// in the order of the layout.
    pub fn payload(&self) -> (fields: Vec<Field>)
        ensures
            fields.deep_view() == self@.payload(Self::layout()),
    {
        let mut slots: Vec<Slot> = Vec::new();
        slots.push(Slot { key: Key::Name, value: Some(Value::Text(self.name.clone())) });
        slots.push(Slot { key: Key::Sound, value: Some(Value::Text(self.sound.clone())) });
        slots.push(
            Slot {
                key: Key::Volume,
                value: match self.volume {
                    Some(volume) => Some(Value::Number(volume)),
                    None => None,
                },
            },
        );
        slots.push(
            Slot {
                key: Key::EmojiId,
                value: match self.emoji_id {
                    Some(id) => Some(Value::Id(id.get())),
                    None => None,
                },
            },
        );
        slots.push(
            Slot {
                key: Key::EmojiName,
                value: match &self.emoji_name {
                    Some(name) => Some(Value::Text(name.clone())),
                    None => None,
                },
            },
        );
        assert(slots.deep_view() =~= self@.row(Self::layout()));
        emit(slots)
    }

    /// Begins the creation of the sound in the guild `guild_id`.
    ///
    /// The builder is used up. What comes back is the execution, with nothing
    /// sent yet: its request posts the payload to the guild's sounds and
    /// carries the audit-log reason beside it. Whoever owns the transport
    /// drives the execution from there.
    pub fn execute(self, guild_id: GuildId) -> (execution: Dispatch<'a>)
        ensures
            execution matches Dispatch::Ready(request) && request@ == (RequestView {
                method: Method::Post,
                route: Route::GuildSoundboardSounds { guild_id },
                body: self@.payload(Self::layout()),
                audit_log_reason: self@.audit_log_reason,
            }),
    {
        let body = self.payload();
        Dispatch::new(
            Request {
                method: Method::Post,
                route: Route::GuildSoundboardSounds { guild_id },
                body,
                audit_log_reason: self.audit_log_reason,
            },
        )
    }
}

} // verus!
