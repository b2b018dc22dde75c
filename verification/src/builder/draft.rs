//! What a builder has gathered, as mathematics, and the laws of its payload.
//!
//! Every builder of this crate is, to its contracts, a [`Draft`]: the wire
//! fields that were set, each with its value, and beside them the audit-log
//! reason. A builder's layout is the fixed order of its wire fields; the
//! payload of a draft under a layout holds the fields that were set, in that
//! order.

use crate::builder::payload::{
    emission, keys_of, lemma_value_of_some, value_of, FieldView, Key, SlotView, ValueView,
};
use vstd::prelude::*;

verus! {

/// The state of a builder: the fields set so far, and the audit-log reason.
#[verifier::ext_equal]
pub struct Draft {
    /// The fields that were set, each with the value it was last given.
    pub fields: Map<Key, ValueView>,
    /// The reason for the audit log: carried beside the payload, never in it.
    pub audit_log_reason: Option<Seq<char>>,
}

impl Draft {
    /// The draft in which nothing was set.
    pub open spec fn empty() -> Draft {
        Draft { fields: Map::empty(), audit_log_reason: None }
    }

    /// This draft after `key` was set to `value`.
    pub open spec fn set(self, key: Key, value: ValueView) -> Draft {
        Draft { fields: self.fields.insert(key, value), ..self }
    }

    /// This draft after `key` was set to `value`, if there is one; a key
    /// without a value stays as it was.
    pub open spec fn given(self, key: Key, value: Option<ValueView>) -> Draft {
        match value {
            Some(value) => self.set(key, value),
            None => self,
        }
    }

    /// This draft after the audit-log reason was set to `reason`.
    pub open spec fn annotate(self, reason: Seq<char>) -> Draft {
        Draft { audit_log_reason: Some(reason), ..self }
    }

    /// The slot of `key`: filled with the key's value if the key was set.
    pub open spec fn slot(self, key: Key) -> SlotView {
        SlotView {
            key,
            value: if self.fields.contains_key(key) {
                Some(self.fields[key])
            } else {
                None
            },
        }
    }

    /// The row of slots of this draft under `layout`.
    pub open spec fn row(self, layout: Seq<Key>) -> Seq<SlotView> {
        layout.map_values(|key: Key| self.slot(key))
    }

    /// The payload of this draft under `layout`.
    pub open spec fn payload(self, layout: Seq<Key>) -> Seq<FieldView> {
        emission(self.row(layout))
    }

    /// The payload of a layout is that of the layout without its last key,
    /// followed by the last key's field if that key was set.
    pub proof fn lemma_payload_step(self, layout: Seq<Key>)
        requires
            layout.len() > 0,
        ensures
            self.payload(layout) == self.payload(layout.drop_last()) + (
            if self.fields.contains_key(layout.last()) {
                seq![FieldView { key: layout.last(), value: self.fields[layout.last()] }]
            } else {
                Seq::empty()
            }),
    {
        let row = self.row(layout);
        assert(row.drop_last() =~= self.row(layout.drop_last()));
        assert(row.last() == self.slot(layout.last()));
        assert(self.payload(layout) =~= self.payload(layout.drop_last()) + (
        if self.fields.contains_key(layout.last()) {
            seq![FieldView { key: layout.last(), value: self.fields[layout.last()] }]
        } else {
            Seq::empty()
        }));
    }

    /// With nothing set, nothing is sent: the payload of the empty draft has
    /// no field, whatever the layout.
    pub proof fn law_nothing_set_nothing_sent(layout: Seq<Key>)
        ensures
            Draft::empty().payload(layout) == Seq::<FieldView>::empty(),
        decreases layout.len(),
    {
        if layout.len() > 0 {
            Draft::empty().lemma_payload_step(layout);
            Draft::law_nothing_set_nothing_sent(layout.drop_last());
        } else {
            assert(Draft::empty().payload(layout) =~= Seq::<FieldView>::empty());
        }
    }

    /// The payload holds exactly what was set. For a layout that names no key
    /// twice, looking a key up in the payload gives the value the key was set
    /// to, whatever that value is, and nothing for a key that was not set or
    /// that the layout does not have.
    pub proof fn law_payload_holds_what_was_set(self, layout: Seq<Key>, key: Key)
        requires
            layout.no_duplicates(),
        ensures
            value_of(self.payload(layout), key) == (if layout.contains(key)
                && self.fields.contains_key(key) {
                Some(self.fields[key])
            } else {
                None
            }),
        decreases layout.len(),
    {
        if layout.len() > 0 {
            let rest = layout.drop_last();
            let last = layout.last();
            self.lemma_payload_step(layout);
            self.law_payload_holds_what_was_set(rest, key);
            let before = self.payload(rest);
            let all = self.payload(layout);
            assert(layout[layout.len() - 1] == last);
            if rest.contains(key) {
                let i = choose|i: int| 0 <= i < rest.len() && rest[i] == key;
                assert(layout[i] == key);
                assert(key != last);
            }
            if layout.contains(key) && key != last {
                let i = choose|i: int| 0 <= i < layout.len() && layout[i] == key;
                assert(rest[i] == key);
            }
            if self.fields.contains_key(last) {
                assert(all.drop_last() =~= before);
                assert(all.last().key == last);
            } else {
                assert(all =~= before);
            }
        }
    }

    /// A field that was never set is left out of the payload: no field of the
    /// payload has its key, and so the payload gives no value for it.
    pub proof fn law_unset_is_omitted(self, layout: Seq<Key>, key: Key)
        requires
            !self.fields.contains_key(key),
        ensures
            !keys_of(self.payload(layout)).contains(key),
            value_of(self.payload(layout), key) is None,
        decreases layout.len(),
    {
        let all = self.payload(layout);
        if layout.len() > 0 {
            let rest = layout.drop_last();
            self.lemma_payload_step(layout);
            self.law_unset_is_omitted(rest, key);
            let before = self.payload(rest);
            if keys_of(all).contains(key) {
                let i = choose|i: int| 0 <= i < keys_of(all).len() && keys_of(all)[i] == key;
                if i < before.len() {
                    assert(keys_of(before)[i] == key);
                }
            }
        } else {
            assert(all =~= Seq::empty());
        }
        lemma_value_of_some(all, key);
    }

    /// Every field of the payload has a key of the layout.
    pub proof fn lemma_payload_within_layout(self, layout: Seq<Key>, key: Key)
        requires
            keys_of(self.payload(layout)).contains(key),
        ensures
            layout.contains(key),
        decreases layout.len(),
    {
        let all = self.payload(layout);
        if layout.len() > 0 {
            let rest = layout.drop_last();
            self.lemma_payload_step(layout);
            let before = self.payload(rest);
            let i = choose|i: int| 0 <= i < keys_of(all).len() && keys_of(all)[i] == key;
            if i < before.len() {
                assert(keys_of(before)[i] == key);
                self.lemma_payload_within_layout(rest, key);
                let j = choose|j: int| 0 <= j < rest.len() && rest[j] == key;
                assert(layout[j] == key);
            } else {
                assert(layout[layout.len() - 1] == key);
            }
        } else {
            assert(all =~= Seq::empty());
        }
    }

    /// No key stands twice in the payload of a layout that names no key twice.
    pub proof fn law_no_key_twice(self, layout: Seq<Key>)
        requires
            layout.no_duplicates(),
        ensures
            keys_of(self.payload(layout)).no_duplicates(),
        decreases layout.len(),
    {
        let all = self.payload(layout);
        if layout.len() > 0 {
            let rest = layout.drop_last();
            let last = layout.last();
            self.lemma_payload_step(layout);
            self.law_no_key_twice(rest);
            let before = self.payload(rest);
            assert forall|i: int, j: int|
                0 <= i < keys_of(all).len() && 0 <= j < keys_of(all).len() && i != j implies keys_of(
                all,
            )[i] != keys_of(all)[j] by {
                if i < before.len() && j < before.len() {
                    assert(keys_of(before)[i] == keys_of(all)[i]);
                    assert(keys_of(before)[j] == keys_of(all)[j]);
                } else {
                    let k = if i < before.len() {
                        i
                    } else {
                        j
                    };
                    assert(keys_of(before)[k] == keys_of(all)[k]);
                    if keys_of(all)[k] == last {
                        self.lemma_payload_within_layout(rest, last);
                        let m = choose|m: int| 0 <= m < rest.len() && rest[m] == last;
                        assert(layout[m] == layout[layout.len() - 1]);
                    }
                }
            }
        } else {
            assert(all =~= Seq::empty());
        }
    }

    /// The last write wins: setting a key twice leaves the draft that the
    /// second setting alone would have made, and so the same payload.
    pub proof fn law_last_write_wins(self, key: Key, first: ValueView, second: ValueView)
        ensures
            self.set(key, first).set(key, second) == self.set(key, second),
    {
        assert(self.fields.insert(key, first).insert(key, second) =~= self.fields.insert(
            key,
            second,
        ));
    }

    /// The audit-log reason is no part of the payload: with a reason, with
    /// another or with none, the payload is the same.
    pub proof fn law_reason_stays_out(self, other: Draft, layout: Seq<Key>)
        requires
            self.fields == other.fields,
        ensures
            self.payload(layout) == other.payload(layout),
    {
        assert(self.row(layout) =~= other.row(layout));
    }

    /// Setting a field leaves the audit-log reason as it was, and setting the
    /// reason leaves every field as it was.
    pub proof fn law_reason_and_fields_apart(self, key: Key, value: ValueView, reason: Seq<char>)
        ensures
            self.set(key, value).audit_log_reason == self.audit_log_reason,
            self.annotate(reason).fields == self.fields,
    {
    }

    /// A field that was set is in the payload whatever it was set to, an
    /// empty value included, and so the payload differs from that of a draft
    /// in which the field was never set.
    pub proof fn law_set_is_emitted(self, layout: Seq<Key>, key: Key, value: ValueView)
        requires
            layout.no_duplicates(),
            layout.contains(key),
        ensures
            value_of(self.set(key, value).payload(layout), key) == Some(value),
            !self.fields.contains_key(key) ==> value_of(self.payload(layout), key) is None
                && self.set(key, value).payload(layout) != self.payload(layout),
    {
        self.set(key, value).law_payload_holds_what_was_set(layout, key);
        self.law_payload_holds_what_was_set(layout, key);
    }
}

} // verus!
