//! The course of one execution.
//!
//! An execution is a small machine. The code that owns the transport drives
//! it: it hands the machine an event, does what the machine answers, and
//! hands back what came of it. The machine asks for its request to be
//! submitted once, on `Begin`, and when the outcome comes it has the result
//! returned. It never asks for a second submission, whatever the outcome was.

use crate::http::error::{settle, settled, Error, HttpError};
use crate::http::request::Request;
use vstd::prelude::*;

verus! {

/// Where an execution stands.
#[derive(Debug, PartialEq, Eq)]
pub enum Dispatch<'a> {
    /// Nothing was sent yet; the request waits to be submitted.
    Ready(Request<'a>),
    /// The request was handed to the transport; its outcome is awaited.
    Waiting,
    /// The outcome was returned to the caller. Nothing more happens.
    Finished,
}

/// What happens to an execution.
#[derive(Debug, PartialEq, Eq)]
pub enum Event<T> {
    /// The caller asks for the execution to run.
    Begin,
    /// The transport has an outcome for the submitted request.
    Reply(Result<T, HttpError>),
}

/// What the driver is to do next.
#[derive(Debug, PartialEq, Eq)]
pub enum Action<'a, T> {
    /// Hand this request to the transport, once, and come back with the
    /// outcome.
    Submit(Request<'a>),
    /// Give the caller this result; the execution is over.
    Return(Result<T, Error>),
    /// Nothing: the event has no meaning where the execution stands.
    Ignore,
}

impl<'a> Dispatch<'a> {
    /// The state after `event`, and what the driver is to do.
    pub open spec fn next<T>(self, event: Event<T>) -> (Dispatch<'a>, Action<'a, T>) {
        match (self, event) {
            (Dispatch::Ready(request), Event::Begin) => (Dispatch::Waiting, Action::Submit(request)),
            (Dispatch::Waiting, Event::Reply(outcome)) => (
                Dispatch::Finished,
                Action::Return(settled(outcome)),
            ),
            (state, _) => (state, Action::Ignore),
        }
    }

    /// The state that a run of events leaves.
    pub open spec fn after<T>(self, events: Seq<Event<T>>) -> Dispatch<'a>
        decreases events.len(),
    {
        if events.len() == 0 {
            self
        } else {
            self.after(events.drop_last()).next(events.last()).0
        }
    }

    /// The actions that a run of events asks of the driver, one for each event.
    pub open spec fn actions<T>(self, events: Seq<Event<T>>) -> Seq<Action<'a, T>>
        decreases events.len(),
    {
        if events.len() == 0 {
            Seq::empty()
        } else {
            self.actions(events.drop_last()).push(
                self.after(events.drop_last()).next(events.last()).1,
            )
        }
    }

    /// An execution of `request`, with nothing sent yet.
    pub fn new(request: Request<'a>) -> (state: Self)
        ensures
            state == Dispatch::Ready(request),
    {
        Dispatch::Ready(request)
    }

    /// Takes one event: gives the next state and what the driver is to do.
    pub fn step<T>(self, event: Event<T>) -> (r: (Dispatch<'a>, Action<'a, T>))
        ensures
            r == self.next(event),
    {
        match (self, event) {
            (Dispatch::Ready(request), Event::Begin) => (Dispatch::Waiting, Action::Submit(request)),
            (Dispatch::Waiting, Event::Reply(outcome)) => (
                Dispatch::Finished,
                Action::Return(settle(outcome)),
            ),
            (state, _) => (state, Action::Ignore),
        }
    }
}

/// How many of `actions` are submissions.
pub open spec fn submissions<T>(actions: Seq<Action<'_, T>>) -> nat
    decreases actions.len(),
{
    if actions.len() == 0 {
        0
    } else {
        submissions(actions.drop_last()) + if actions.last() is Submit {
            1nat
        } else {
            0nat
        }
    }
}

/// Whether one of `events` is `Begin`.
pub open spec fn begun<T>(events: Seq<Event<T>>) -> bool {
    exists|i: int| 0 <= i < events.len() && events[i] is Begin
}

/// An execution that is under way or over never submits: whatever events
/// come, no action is a submission and the state is never `Ready` again.
pub proof fn law_no_resubmission<T>(state: Dispatch<'_>, events: Seq<Event<T>>)
    requires
        !(state is Ready),
    ensures
        submissions(state.actions(events)) == 0,
        !(state.after(events) is Ready),
    decreases events.len(),
{
    if events.len() > 0 {
        law_no_resubmission(state, events.drop_last());
        assert(state.actions(events).drop_last() =~= state.actions(events.drop_last()));
    }
}

/// A request is submitted exactly once. Whatever events come to an execution
/// of `request`, and whatever outcome the transport has, the driver is asked
/// to submit once if the execution was begun and never if it was not; the
/// submission carries `request` itself.
pub proof fn law_one_submission<T>(request: Request<'_>, events: Seq<Event<T>>)
    ensures
        submissions(Dispatch::Ready(request).actions(events)) == (if begun(events) {
            1nat
        } else {
            0nat
        }),
        forall|i: int|
            0 <= i < events.len() ==> (#[trigger] Dispatch::Ready(request).actions(events)[i]
                matches Action::Submit(sent) ==> sent == request),
        Dispatch::Ready(request).after(events) == Dispatch::Ready(request) <==> !begun(events),
        Dispatch::Ready(request).after(events) is Ready <==> !begun(events),
    decreases events.len(),
{
    let start = Dispatch::Ready(request);
    if events.len() > 0 {
        let earlier = events.drop_last();
        law_one_submission(request, earlier);
        assert(start.actions(earlier).len() == earlier.len()) by {
            lemma_one_action_per_event(start, earlier);
        }
        assert(start.actions(events).drop_last() =~= start.actions(earlier));
        if begun(earlier) {
            let i = choose|i: int| 0 <= i < earlier.len() && earlier[i] is Begin;
            assert(events[i] is Begin);
        } else if events.last() is Begin {
            assert(events[events.len() - 1] is Begin);
        } else if begun(events) {
            let i = choose|i: int| 0 <= i < events.len() && events[i] is Begin;
            assert(earlier[i] is Begin);
        }
        assert forall|i: int| 0 <= i < events.len() implies (#[trigger] start.actions(events)[i]
            matches Action::Submit(sent) ==> sent == request) by {
            if i < earlier.len() {
                assert(start.actions(events)[i] == start.actions(earlier)[i]);
            }
        }
    }
}

/// A run asks one action for each event.
pub proof fn lemma_one_action_per_event<T>(state: Dispatch<'_>, events: Seq<Event<T>>)
    ensures
        state.actions(events).len() == events.len(),
    decreases events.len(),
{
    if events.len() > 0 {
        lemma_one_action_per_event(state, events.drop_last());
    }
}

/// The whole of an execution: begun, and then answered with `outcome`, it
/// asks for `request` to be submitted, then for the outcome to be returned,
/// a success as it came and a failure wrapped, and it is over.
pub proof fn law_outcome_reaches_caller<T>(request: Request<'_>, outcome: Result<T, HttpError>)
    ensures
        Dispatch::Ready(request).actions(seq![Event::Begin, Event::Reply(outcome)]) == seq![
            Action::Submit(request),
            Action::Return(settled(outcome)),
        ],
        Dispatch::Ready(request).after(seq![Event::Begin, Event::Reply(outcome)])
            == Dispatch::Finished,
{
    let start = Dispatch::Ready(request);
    let events = seq![Event::Begin, Event::Reply(outcome)];
    let first = seq![Event::<T>::Begin];
    assert(events.drop_last() =~= first);
    assert(first.drop_last() =~= Seq::<Event<T>>::empty());
    assert(start.after(first.drop_last()) == start);
    assert(start.after(first) == Dispatch::Waiting);
    assert(start.actions(first.drop_last()) =~= Seq::<Action<T>>::empty());
    assert(start.actions(first) =~= seq![Action::<T>::Submit(request)]);
    assert(start.actions(events) =~= seq![
        Action::Submit(request),
        Action::Return(settled(outcome)),
    ]);
}

} // verus!
