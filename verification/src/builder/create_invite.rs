//! The builder of a channel invite.

use crate::builder::draft::Draft;
use crate::builder::payload::{emit, keys_of, value_of, Field, Key, Slot, Value, ValueView};
use crate::http::dispatch::Dispatch;
use crate::http::request::{Request, RequestView};
use crate::http::route::{Method, Route};
use crate::model::id::{ApplicationId, ChannelId, UserId};
use crate::model::invite::InviteTargetType;
use vstd::prelude::*;

verus! {

/// A builder of an invite to a channel. Every parameter is optional: what is
/// not set is left to the remote service's defaults.
///
/// The bounds of the values are the remote service's to enforce, not this
/// builder's.
#[derive(Clone, Debug)]
#[must_use]
pub struct CreateInvite<'a> {
    max_age: Option<u32>,
    max_uses: Option<u8>,
    temporary: Option<bool>,
    unique: Option<bool>,
    target_type: Option<InviteTargetType>,
    target_user_id: Option<UserId>,
    target_application_id: Option<ApplicationId>,
    audit_log_reason: Option<&'a str>,
}

impl<'a> View for CreateInvite<'a> {
    type V = Draft;

    closed spec fn view(&self) -> Draft {
        Draft {
            fields: Map::empty(),
            audit_log_reason: match self.audit_log_reason {
                Some(reason) => Some(reason@),
                None => None,
            },
        }.given(
            Key::MaxAge,
            match self.max_age {
                Some(n) => Some(ValueView::Integer(n as u64)),
                None => None,
            },
        ).given(
            Key::MaxUses,
            match self.max_uses {
                Some(n) => Some(ValueView::Integer(n as u64)),
                None => None,
            },
        ).given(
            Key::Temporary,
            match self.temporary {
                Some(b) => Some(ValueView::Bool(b)),
                None => None,
            },
        ).given(
            Key::Unique,
            match self.unique {
                Some(b) => Some(ValueView::Bool(b)),
                None => None,
            },
        ).given(
            Key::TargetType,
            match self.target_type {
                Some(kind) => Some(ValueView::Integer(kind.wire_number() as u64)),
                None => None,
            },
        ).given(
            Key::TargetUserId,
            match self.target_user_id {
                Some(id) => Some(ValueView::Id(id.0)),
                None => None,
            },
        ).given(
            Key::TargetApplicationId,
            match self.target_application_id {
                Some(id) => Some(ValueView::Id(id.0)),
                None => None,
            },
        )
    }
}

impl<'a> CreateInvite<'a> {
    /// The wire fields of an invite, in the order in which the payload has
    /// them.
    pub open spec fn layout() -> Seq<Key> {
        seq![
            Key::MaxAge,
            Key::MaxUses,
            Key::Temporary,
            Key::Unique,
            Key::TargetType,
            Key::TargetUserId,
            Key::TargetApplicationId,
        ]
    }

    /// The layout names no key twice, and the builder sets no key outside it.
    pub proof fn lemma_layout(&self)
        ensures
            Self::layout().no_duplicates(),
            forall|key: Key| #[trigger] self@.fields.contains_key(key) ==> Self::layout().contains(key),
    {
        let layout = Self::layout();
        assert forall|key: Key| #[trigger] self@.fields.contains_key(key) implies layout.contains(
            key,
        ) by {
            assert(layout[0] == Key::MaxAge);
            assert(layout[1] == Key::MaxUses);
            assert(layout[2] == Key::Temporary);
            assert(layout[3] == Key::Unique);
            assert(layout[4] == Key::TargetType);
            assert(layout[5] == Key::TargetUserId);
            assert(layout[6] == Key::TargetApplicationId);
        }
    }

    /// The payload of this builder holds exactly what was set: it gives each
    /// key that was set the value it was last set to, gives nothing for any
    /// other key, and has no key twice.
    pub proof fn law_payload_is_what_was_set(&self, key: Key)
        ensures
            value_of(self@.payload(Self::layout()), key) == (if self@.fields.contains_key(key) {
                Some(self@.fields[key])
            } else {
                None
            }),
            keys_of(self@.payload(Self::layout())).no_duplicates(),
    {
        self.lemma_layout();
        self@.law_payload_holds_what_was_set(Self::layout(), key);
        self@.law_no_key_twice(Self::layout());
    }

    /// A builder with nothing set.
    pub fn new() -> (r: Self)
        ensures
            r@ == Draft::empty(),
    {
        CreateInvite {
            max_age: None,
            max_uses: None,
            temporary: None,
            unique: None,
            target_type: None,
            target_user_id: None,
            target_application_id: None,
            audit_log_reason: None,
        }
    }

    /// The time in seconds for which the invite is valid; `0` for an invite
    /// that does not expire with time.
    pub fn max_age(self, max_age: u32) -> (r: Self)
        ensures
            r@ == self@.set(Key::MaxAge, ValueView::Integer(max_age as u64)),
    {
        let mut next = self;
        next.max_age = Some(max_age);
        next
    }

    /// The number of uses for which the invite is valid; `0` for an invite
    /// that does not expire with use.
    pub fn max_uses(self, max_uses: u8) -> (r: Self)
        ensures
            r@ == self@.set(Key::MaxUses, ValueView::Integer(max_uses as u64)),
    {
        let mut next = self;
        next.max_uses = Some(max_uses);
        next
    }

    /// Whether the invite grants a temporary membership.
    pub fn temporary(self, temporary: bool) -> (r: Self)
        ensures
            r@ == self@.set(Key::Temporary, ValueView::Bool(temporary)),
    {
        let mut next = self;
        next.temporary = Some(temporary);
        next
    }

    /// Whether a new invite is made even where a similar one exists.
    pub fn unique(self, unique: bool) -> (r: Self)
        ensures
            r@ == self@.set(Key::Unique, ValueView::Bool(unique)),
    {
        let mut next = self;
        next.unique = Some(unique);
        next
    }

    /// The kind of target of a voice-channel invite.
    pub fn target_type(self, target_type: InviteTargetType) -> (r: Self)
        ensures
            r@ == self@.set(
                Key::TargetType,
                ValueView::Integer(target_type.wire_number() as u64),
            ),
    {
        let mut next = self;
        next.target_type = Some(target_type);
        next
    }

    /// The user whose stream the invite shows; for the target kind `Stream`.
    pub fn target_user_id(self, target_user_id: UserId) -> (r: Self)
        ensures
            r@ == self@.set(Key::TargetUserId, ValueView::Id(target_user_id.0)),
    {
        let mut next = self;
        next.target_user_id = Some(target_user_id);
        next
    }

    /// The embedded application the invite opens; for the target kind
    /// `EmbeddedApplication`.
    pub fn target_application_id(self, target_application_id: ApplicationId) -> (r: Self)
        ensures
            r@ == self@.set(Key::TargetApplicationId, ValueView::Id(target_application_id.0)),
    {
        let mut next = self;
        next.target_application_id = Some(target_application_id);
        next
    }

    /// Sets the reason that the request carries for the audit log.
    pub fn audit_log_reason(self, reason: &'a str) -> (r: Self)
        ensures
            r@ == self@.annotate(reason@),
    {
        let mut next = self;
        next.audit_log_reason = Some(reason);
        next
    }

    /// The payload: the fields that were set, in the order of the layout.
    pub fn payload(&self) -> (fields: Vec<Field>)
        ensures
            fields.deep_view() == self@.payload(Self::layout()),
    {
        let mut slots: Vec<Slot> = Vec::new();
        slots.push(
            Slot {
                key: Key::MaxAge,
                value: match self.max_age {
                    Some(n) => Some(Value::Integer(n as u64)),
                    None => None,
                },
            },
        );
        slots.push(
            Slot {
                key: Key::MaxUses,
                value: match self.max_uses {
                    Some(n) => Some(Value::Integer(n as u64)),
                    None => None,
                },
            },
        );
        slots.push(
            Slot {
                key: Key::Temporary,
                value: match self.temporary {
                    Some(b) => Some(Value::Bool(b)),
                    None => None,
                },
            },
        );
        slots.push(
            Slot {
                key: Key::Unique,
                value: match self.unique {
                    Some(b) => Some(Value::Bool(b)),
                    None => None,
                },
            },
        );
        slots.push(
            Slot {
                key: Key::TargetType,
                value: match self.target_type {
                    Some(kind) => Some(Value::Integer(kind.number() as u64)),
                    None => None,
                },
            },
        );
        slots.push(
            Slot {
                key: Key::TargetUserId,
                value: match self.target_user_id {
                    Some(id) => Some(Value::Id(id.get())),
                    None => None,
                },
            },
        );
        slots.push(
            Slot {
                key: Key::TargetApplicationId,
                value: match self.target_application_id {
                    Some(id) => Some(Value::Id(id.get())),
                    None => None,
                },
            },
        );
        assert(slots.deep_view() =~= self@.row(Self::layout()));
        emit(slots)
    }

    /// Begins the creation of the invite for the channel `channel_id`.
    ///
    /// The builder is used up. What comes back is the execution, with nothing
    /// sent yet: its request posts the payload to the channel's invites and
    /// carries the audit-log reason beside it. Whoever owns the transport
    /// drives the execution from there.
    pub fn execute(self, channel_id: ChannelId) -> (execution: Dispatch<'a>)
        ensures
            execution matches Dispatch::Ready(request) && request@ == (RequestView {
                method: Method::Post,
                route: Route::ChannelInvites { channel_id },
                body: self@.payload(Self::layout()),
                audit_log_reason: self@.audit_log_reason,
            }),
    {
        let body = self.payload();
        Dispatch::new(
            Request {
                method: Method::Post,
                route: Route::ChannelInvites { channel_id },
                body,
                audit_log_reason: self.audit_log_reason,
            },
        )
    }
}

impl<'a> Default for CreateInvite<'a> {
    fn default() -> (r: Self)
        ensures
            r@ == Draft::empty(),
    {
        CreateInvite::new()
    }
}

} // verus!
