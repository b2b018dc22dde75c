//! The payload of a request: the fields that were set, and nothing else.
//!
//! A builder lays its wire fields out as a fixed row of [`Slot`]s, each either
//! filled with a value or left empty. [`emit`] turns the row into the payload:
//! a filled slot becomes a [`Field`], an empty one leaves no trace. That is
//! what lets the remote service tell "leave this as it is" (no field) from
//! "make this empty" (a field with an empty value).

use crate::model::volume::Volume;
use vstd::prelude::*;

verus! {

/// The wire fields that the builders of this crate can put into a payload.
#[derive(Clone, Copy, Debug, PartialEq, Eq, Structural, Hash)]
pub enum Key {
    Name,
    Sound,
    Volume,
    EmojiId,
    EmojiName,
    MaxAge,
    MaxUses,
    Temporary,
    Unique,
    TargetType,
    TargetUserId,
    TargetApplicationId,
    SoundId,
    SourceGuildId,
}

impl Key {
    /// The name under which the field stands in the payload.
    pub open spec fn wire(self) -> Seq<char> {
        match self {
            Key::Name => "name"@,
            Key::Sound => "sound"@,
            Key::Volume => "volume"@,
            Key::EmojiId => "emoji_id"@,
            Key::EmojiName => "emoji_name"@,
            Key::MaxAge => "max_age"@,
            Key::MaxUses => "max_uses"@,
            Key::Temporary => "temporary"@,
            Key::Unique => "unique"@,
            Key::TargetType => "target_type"@,
            Key::TargetUserId => "target_user_id"@,
            Key::TargetApplicationId => "target_application_id"@,
            Key::SoundId => "sound_id"@,
            Key::SourceGuildId => "source_guild_id"@,
        }
    }

    /// The name under which the field stands in the payload.
    pub fn as_str(self) -> (name: &'static str)
        ensures
            name@ == self.wire(),
    {
        match self {
            Key::Name => "name",
            Key::Sound => "sound",
            Key::Volume => "volume",
            Key::EmojiId => "emoji_id",
            Key::EmojiName => "emoji_name",
            Key::MaxAge => "max_age",
            Key::MaxUses => "max_uses",
            Key::Temporary => "temporary",
            Key::Unique => "unique",
            Key::TargetType => "target_type",
            Key::TargetUserId => "target_user_id",
            Key::TargetApplicationId => "target_application_id",
            Key::SoundId => "sound_id",
            Key::SourceGuildId => "source_guild_id",
        }
    }

    /// The length of the wire name.
    spec fn wire_len(self) -> nat {
        match self {
            Key::Name => 4,
            Key::Sound => 5,
            Key::Volume => 6,
            Key::EmojiId => 8,
            Key::EmojiName => 10,
            Key::MaxAge => 7,
            Key::MaxUses => 8,
            Key::Temporary => 9,
            Key::Unique => 6,
            Key::TargetType => 11,
            Key::TargetUserId => 14,
            Key::TargetApplicationId => 21,
            Key::SoundId => 8,
            Key::SourceGuildId => 15,
        }
    }

    /// The first character of the wire name.
    spec fn wire_initial(self) -> char {
        match self {
            Key::Name => 'n',
            Key::Sound | Key::SoundId | Key::SourceGuildId => 's',
            Key::Volume => 'v',
            Key::EmojiId | Key::EmojiName => 'e',
            Key::MaxAge | Key::MaxUses => 'm',
            Key::Temporary | Key::TargetType | Key::TargetUserId | Key::TargetApplicationId => 't',
            Key::Unique => 'u',
        }
    }

    /// Every wire name has the length and the first character given above.
    proof fn lemma_wire_shape(self)
        ensures
            self.wire().len() == self.wire_len(),
            self.wire()[0] == self.wire_initial(),
    {
        reveal_strlit("name");
        reveal_strlit("sound");
        reveal_strlit("volume");
        reveal_strlit("emoji_id");
        reveal_strlit("emoji_name");
        reveal_strlit("max_age");
        reveal_strlit("max_uses");
        reveal_strlit("temporary");
        reveal_strlit("unique");
        reveal_strlit("target_type");
        reveal_strlit("target_user_id");
        reveal_strlit("target_application_id");
        reveal_strlit("sound_id");
        reveal_strlit("source_guild_id");
    }

    /// No two fields share a wire name.
    pub proof fn law_wire_names_differ(self, other: Key)
        requires
            self.wire() == other.wire(),
        ensures
            self == other,
    {
        self.lemma_wire_shape();
        other.lemma_wire_shape();
    }
}

/// A value on the wire.
#[derive(Clone, Debug, PartialEq, Eq)]
pub enum Value {
    /// A truth value.
    Bool(bool),
    /// An unsigned whole number.
    Integer(u64),
    /// A 64-bit IEEE 754 number, by its bit pattern.
    Number(Volume),
    /// A text; the empty text is a value like any other.
    Text(String),
    /// An identifier, by its raw number.
    Id(u64),
}

/// What a [`Value`] says, with texts as sequences of characters.
pub enum ValueView {
    Bool(bool),
    Integer(u64),
    Number(Volume),
    Text(Seq<char>),
    Id(u64),
}

impl View for Value {
    type V = ValueView;

    open spec fn view(&self) -> ValueView {
        match self {
            Value::Bool(b) => ValueView::Bool(*b),
            Value::Integer(n) => ValueView::Integer(*n),
            Value::Number(v) => ValueView::Number(*v),
            Value::Text(s) => ValueView::Text(s@),
            Value::Id(id) => ValueView::Id(*id),
        }
    }
}

impl DeepView for Value {
    type V = ValueView;

    open spec fn deep_view(&self) -> ValueView {
        self@
    }
}

/// A place in a builder's row of wire fields: the field's key and, if the
/// field was set, its value.
#[derive(Clone, Debug, PartialEq, Eq)]
pub struct Slot {
    pub key: Key,
    pub value: Option<Value>,
}

/// What a [`Slot`] says.
pub struct SlotView {
    pub key: Key,
    pub value: Option<ValueView>,
}

impl View for Slot {
    type V = SlotView;

    open spec fn view(&self) -> SlotView {
        SlotView {
            key: self.key,
            value: match self.value {
                Some(v) => Some(v@),
                None => None,
            },
        }
    }
}

impl DeepView for Slot {
    type V = SlotView;

    open spec fn deep_view(&self) -> SlotView {
        self@
    }
}

/// A field of a payload: a key with its value.
#[derive(Clone, Debug, PartialEq, Eq)]
pub struct Field {
    pub key: Key,
    pub value: Value,
}

/// What a [`Field`] says.
pub struct FieldView {
    pub key: Key,
    pub value: ValueView,
}

impl View for Field {
    type V = FieldView;

    open spec fn view(&self) -> FieldView {
        FieldView { key: self.key, value: self.value@ }
    }
}

impl DeepView for Field {
    type V = FieldView;

    open spec fn deep_view(&self) -> FieldView {
        self@
    }
}

/// The field that a slot puts into the payload, if it puts one.
pub open spec fn emitted(slot: SlotView) -> Option<FieldView> {
    match slot.value {
        Some(value) => Some(FieldView { key: slot.key, value }),
        None => None,
    }
}

/// The payload of a row of slots: the fields of the filled slots, in the
/// order of the row.
pub open spec fn emission(slots: Seq<SlotView>) -> Seq<FieldView> {
    slots.filter_map(|slot: SlotView| emitted(slot))
}

/// Turns a row of slots into its payload.
pub fn emit(slots: Vec<Slot>) -> (fields: Vec<Field>)
    ensures
        fields.deep_view() == emission(slots.deep_view()),
{
    let ghost items = slots@;
    let ghost row = slots.deep_view();
    let mut fields: Vec<Field> = Vec::new();
    assert(fields.deep_view() =~= emission(row.take(0)));
    for slot in it: slots
        invariant
            it.seq() == items,
            row.len() == items.len(),
            forall|i: int| 0 <= i < items.len() ==> row[i] == (#[trigger] items[i])@,
            fields.deep_view() == emission(row.take(it.index() as int)),
    {
        let ghost done = row.take(it.index() as int);
        let ghost next = row.take(it.index() + 1);
        let ghost before = fields.deep_view();
        assert(next.drop_last() =~= done);
        assert(next.last() == slot@);
        match slot.value {
            Some(value) => {
                fields.push(Field { key: slot.key, value });
                assert(fields.deep_view() =~= before + seq![emitted(slot@)->0]);
            },
            None => {},
        }
    }
    assert(row.take(row.len() as int) =~= row);
    fields
}

/// The keys of a payload's fields, in order.
pub open spec fn keys_of(fields: Seq<FieldView>) -> Seq<Key> {
    fields.map_values(|field: FieldView| field.key)
}

/// The value that a payload gives for `key`: that of the last field with
/// the key, or nothing where no field has it.
pub open spec fn value_of(fields: Seq<FieldView>, key: Key) -> Option<ValueView>
    decreases fields.len(),
{
    if fields.len() == 0 {
        None
    } else if fields.last().key == key {
        Some(fields.last().value)
    } else {
        value_of(fields.drop_last(), key)
    }
}

/// Looks `key` up in a payload.
pub fn find(fields: &Vec<Field>, key: Key) -> (found: Option<&Value>)
    ensures
        found.deep_view() == value_of(fields.deep_view(), key),
{
    let ghost all = fields.deep_view();
    let mut i: usize = fields.len();
    assert(all.take(i as int) =~= all);
    while i > 0
        invariant
            i <= fields.len(),
            all == fields.deep_view(),
            value_of(all, key) == value_of(all.take(i as int), key),
        decreases i,
    {
        let ghost upto = all.take(i as int);
        i = i - 1;
        assert(upto.drop_last() =~= all.take(i as int));
        assert(upto.last() == fields[i as int]@);
        if fields[i].key == key {
            return Some(&fields[i].value);
        }
    }
    None
}

/// A payload gives a value for exactly the keys of its fields.
pub proof fn lemma_value_of_some(fields: Seq<FieldView>, key: Key)
    ensures
        value_of(fields, key) is Some <==> keys_of(fields).contains(key),
    decreases fields.len(),
{
    let keys = keys_of(fields);
    if fields.len() == 0 {
    } else {
        let rest = fields.drop_last();
        lemma_value_of_some(rest, key);
        assert(keys_of(rest) =~= keys.drop_last());
        if fields.last().key == key {
            assert(keys[keys.len() - 1] == key);
        } else if keys.contains(key) {
            let i = choose|i: int| 0 <= i < keys.len() && keys[i] == key;
            assert(keys.drop_last()[i] == key);
        } else if keys.drop_last().contains(key) {
            let i = choose|i: int| 0 <= i < keys.drop_last().len() && keys.drop_last()[i] == key;
            assert(keys[i] == key);
        }
    }
}

} // verus!
