//! The builder of a change to a guild's soundboard sound.

use crate::builder::draft::Draft;
use crate::builder::payload::{emit, keys_of, value_of, Field, Key, Slot, Value, ValueView};
use crate::http::dispatch::Dispatch;
use crate::http::request::{Request, RequestView};
use crate::http::route::{Method, Route};
use crate::model::id::{EmojiId, GuildId, SoundboardSoundId};
use crate::model::volume::Volume;
use vstd::prelude::*;

verus! {

/// A builder of a change to a soundboard sound of a guild.
///
/// Only what is set is changed: a field that was never set is not in the
/// payload, and the remote service leaves it as it is. A field set to an
/// empty value is in the payload, with that value.
///
/// The bounds of the values (a name of 2 to 32 characters, a volume from 0 to
/// 1) are the remote service's to enforce, not this builder's.
#[derive(Clone, Debug)]
#[must_use]
pub struct EditGuildSoundboardSound<'a> {
    name: Option<String>,
    volume: Option<Volume>,
    emoji_id: Option<EmojiId>,
    emoji_name: Option<String>,
    audit_log_reason: Option<&'a str>,
}

impl<'a> View for EditGuildSoundboardSound<'a> {
    type V = Draft;

    closed spec fn view(&self) -> Draft {
        Draft {
            fields: Map::empty(),
            audit_log_reason: match self.audit_log_reason {
                Some(reason) => Some(reason@),
                None => None,
            },
        }.given(
            Key::Name,
            match self.name {
                Some(name) => Some(ValueView::Text(name@)),
                None => None,
            },
        ).given(
            Key::Volume,
            match self.volume {
                Some(volume) => Some(ValueView::Number(volume)),
                None => None,
            },
        ).given(
            Key::EmojiId,
            match self.emoji_id {
                Some(id) => Some(ValueView::Id(id.0)),
                None => None,
            },
        ).given(
            Key::EmojiName,
            match self.emoji_name {
                Some(name) => Some(ValueView::Text(name@)),
                None => None,
            },
        )
    }
}

impl<'a> EditGuildSoundboardSound<'a> {
    /// The wire fields of the change, in the order in which the payload has
    /// them.
    pub open spec fn layout() -> Seq<Key> {
        seq![Key::Name, Key::Volume, Key::EmojiId, Key::EmojiName]
    }

    /// The layout names no key twice, and the builder sets no key outside it.
    pub proof fn lemma_layout(&self)
        ensures
            Self::layout().no_duplicates(),
            forall|key: Key| #[trigger] self@.fields.contains_key(key) ==> Self::layout().contains(key),
    {
        let layout = Self::layout();
        assert(layout[0] == Key::Name);
        assert(layout[1] == Key::Volume);
        assert(layout[2] == Key::EmojiId);
        assert(layout[3] == Key::EmojiName);
    }

    /// The payload of this builder holds exactly what was set: it gives each
    /// key that was set the value it was last set to, gives nothing for any
    /// other key, and has no key twice.
    pub proof fn law_payload_is_what_was_set(&self, key: Key)
        ensures
            value_of(self@.payload(Self::layout()), key) == (if self@.fields.contains_key(key) {
                Some(self@.fields[key])
            } else {
                None
            }),
            keys_of(self@.payload(Self::layout())).no_duplicates(),
    {
        self.lemma_layout();
        self@.law_payload_holds_what_was_set(Self::layout(), key);
        self@.law_no_key_twice(Self::layout());
    }

    /// A builder with nothing set.
    pub fn new() -> (r: Self)
        ensures
            r@ == Draft::empty(),
    {
        EditGuildSoundboardSound {
            name: None,
            volume: None,
            emoji_id: None,
            emoji_name: None,
            audit_log_reason: None,
        }
    }

    /// Sets the name of the sound.
    pub fn name(self, name: String) -> (r: Self)
        ensures
            r@ == self@.set(Key::Name, ValueView::Text(name@)),
    {
        let mut next = self;
        next.name = Some(name);
        next
    }

    /// Sets the volume of the sound.
    pub fn volume(self, volume: Volume) -> (r: Self)
        ensures
            r@ == self@.set(Key::Volume, ValueView::Number(volume)),
    {
        let mut next = self;
        next.volume = Some(volume);
        next
    }

    /// Sets the custom emoji of the sound.
    pub fn emoji_id(self, emoji_id: EmojiId) -> (r: Self)
        ensures
            r@ == self@.set(Key::EmojiId, ValueView::Id(emoji_id.0)),
    {
        let mut next = self;
        next.emoji_id = Some(emoji_id);
        next
    }

    /// Sets the standard emoji of the sound, by its unicode character. The
    /// empty text is set like any other: it stands in the payload, empty.
    pub fn emoji_name(self, emoji_name: String) -> (r: Self)
        ensures
            r@ == self@.set(Key::EmojiName, ValueView::Text(emoji_name@)),
    {
        let mut next = self;
        next.emoji_name = Some(emoji_name);
        next
    }

    /// Sets the reason that the request carries for the audit log.
    pub fn audit_log_reason(self, reason: &'a str) -> (r: Self)
        ensures
            r@ == self@.annotate(reason@),
    {
        let mut next = self;
        next.audit_log_reason = Some(reason);
        next
    }

    /// The payload: the fields that were set, in the order of the layout.
    pub fn payload(&self) -> (fields: Vec<Field>)
        ensures
            fields.deep_view() == self@.payload(Self::layout()),
    {
        let mut slots: Vec<Slot> = Vec::new();
        slots.push(
            Slot {
                key: Key::Name,
                value: match &self.name {
                    Some(name) => Some(Value::Text(name.clone())),
                    None => None,
                },
            },
        );
        slots.push(
            Slot {
                key: Key::Volume,
                value: match self.volume {
                    Some(volume) => Some(Value::Number(volume)),
                    None => None,
                },
            },
        );
        slots.push(
            Slot {
                key: Key::EmojiId,
                value: match self.emoji_id {
                    Some(id) => Some(Value::Id(id.get())),
                    None => None,
                },
            },
        );
        slots.push(
            Slot {
                key: Key::EmojiName,
                value: match &self.emoji_name {
                    Some(name) => Some(Value::Text(name.clone())),
                    None => None,
                },
            },
        );
        assert(slots.deep_view() =~= self@.row(Self::layout()));
        emit(slots)
    }

    /// Begins the change of the sound `sound_id` of the guild `guild_id`.
    ///
    /// The builder is used up. What comes back is the execution, with nothing
    /// sent yet: its request patches the sound with the payload and carries
    /// the audit-log reason beside it. Whoever owns the transport drives the
    /// execution from there.
    pub fn execute(self, guild_id: GuildId, sound_id: SoundboardSoundId) -> (execution: Dispatch<
        'a,
    >)
        ensures
            execution matches Dispatch::Ready(request) && request@ == (RequestView {
                method: Method::Patch,
                route: Route::GuildSoundboardSound { guild_id, sound_id },
                body: self@.payload(Self::layout()),
                audit_log_reason: self@.audit_log_reason,
            }),
    {
        let body = self.payload();
        Dispatch::new(
            Request {
                method: Method::Patch,
                route: Route::GuildSoundboardSound { guild_id, sound_id },
                body,
                audit_log_reason: self.audit_log_reason,
            },
        )
    }
}

impl<'a> Default for EditGuildSoundboardSound<'a> {
    fn default() -> (r: Self)
        ensures
            r@ == Draft::empty(),
    {
        EditGuildSoundboardSound::new()
    }
}

} // verus!
