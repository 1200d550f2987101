//! The ephemeral subscription pattern: wait for the next qualifying event
//! from the same subject, under a deadline.
//!
//! In the running host a temporary listener forwards matching-subject
//! events into a small bounded channel and a timeout races the receive;
//! both the channel and the timer are asynchronous plumbing.  The decisions
//! are verified here: which events the temporary listener forwards and when
//! it retires (`subscription_flow`), and which of the events that arrived
//! before the deadline resolves the wait (`next_event`, applied by the
//! receiving side to the arrivals in order).  An empty or never-qualifying
//! arrival sequence is exactly the timeout case.

use vstd::prelude::*;

use crate::event::EventInner;
use crate::event::GroupMessageEvent;
use crate::event::GroupMessagePayload;
use crate::listener::Flow;

verus! {

/// The deadline elapsed before any qualifying event arrived.
#[derive(Clone, Copy, PartialEq, Eq, Structural, Debug)]
pub struct TimeoutError;

/// A caller-supplied predicate over a typed event, re-applied on the
/// receiving side of the subscription to decide whether to keep waiting.
pub trait EventFilter {
    /// What the predicate accepts.
    spec fn spec_accept(&self, e: GroupMessageEvent) -> bool;

    fn accept(&self, e: &GroupMessageEvent) -> (r: bool)
        ensures
            r == self.spec_accept(*e),
    ;
}

/// A caller-supplied predicate over a message's textual content.
pub trait MessageFilter {
    /// What the predicate accepts.
    spec fn spec_accept(&self, m: Seq<char>) -> bool;

    fn accept(&self, m: &String) -> (r: bool)
        ensures
            r == self.spec_accept(m@),
    ;
}

/// The message predicate that accepts exactly one text.
pub struct MessageIs {
    pub text: String,
}

impl MessageFilter for MessageIs {
    open spec fn spec_accept(&self, m: Seq<char>) -> bool {
        m == self.text@
    }

    fn accept(&self, m: &String) -> (r: bool) {
        *m == self.text
    }
}

/// Lifts a message predicate to an event predicate over the message text.
pub struct ByMessage<'a, F> {
    pub filter: &'a F,
}

impl<'a, F: MessageFilter> EventFilter for ByMessage<'a, F> {
    open spec fn spec_accept(&self, e: GroupMessageEvent) -> bool {
        self.filter.spec_accept(e.payload().message@)
    }

    fn accept(&self, e: &GroupMessageEvent) -> (r: bool) {
        self.filter.accept(e.message())
    }
}

impl EventInner<GroupMessagePayload> {
    /// Whether `e` comes from the same subject as this event: the same
    /// group and the same sender.
    pub open spec fn same_subject(self, e: GroupMessageEvent) -> bool {
        self.payload().group == e.payload().group && self.payload().sender == e.payload().sender
    }

    pub fn subject_matches(&self, e: &GroupMessageEvent) -> (r: bool)
        ensures
            r == self.same_subject(*e),
    {
        self.group() == e.group() && self.sender() == e.sender()
    }

    /// The temporary listener's decision for one incoming event: an event
    /// from an unrelated subject is skipped and the listener stays
    /// registered; a matching-subject event is forwarded and the listener
    /// withdraws its continuation, having consumed its one delivery.  The
    /// subscription never intercepts the event for other listeners.
    pub fn subscription_flow(&self, e: &GroupMessageEvent) -> (f: Flow)
        ensures
            !f.intercept,
            f.keep_listening == !self.same_subject(*e),
    {
        Flow { keep_listening: !self.subject_matches(e), intercept: false }
    }

    /// Whether `e` resolves a wait started from this event under `filter`:
    /// it comes from the same subject and the predicate accepts it.
    pub open spec fn qualifies<F: EventFilter>(self, filter: F, e: GroupMessageEvent) -> bool {
        self.same_subject(e) && filter.spec_accept(e)
    }

    /// Resolves the wait against the events that arrived before the
    /// deadline, in arrival order: the first qualifying one is the answer,
    /// and if none qualifies the wait has timed out.
    pub fn next_event<F: EventFilter>(
        &self,
        arrivals: &Vec<GroupMessageEvent>,
        filter: &F,
    ) -> (r: Result<GroupMessageEvent, TimeoutError>)
        ensures
            r is Ok <==> exists|i: int|
                0 <= i < arrivals@.len() && self.qualifies(*filter, #[trigger] arrivals@[i]),
            r is Ok ==> exists|i: int|
                0 <= i < arrivals@.len() && self.qualifies(*filter, #[trigger] arrivals@[i])
                    && r->Ok_0 == arrivals@[i] && (forall|j: int|
                    0 <= j < i ==> !self.qualifies(*filter, #[trigger] arrivals@[j])),
            r is Err ==> r == Err::<GroupMessageEvent, TimeoutError>(TimeoutError),
    {
        let mut i: usize = 0;
        while i < arrivals.len()
            invariant
                0 <= i as int <= arrivals@.len(),
                forall|j: int|
                    0 <= j < i as int ==> !self.qualifies(*filter, #[trigger] arrivals@[j]),
            decreases arrivals@.len() - i as int,
        {
            if self.subject_matches(&arrivals[i]) && filter.accept(&arrivals[i]) {
                return Ok(arrivals[i].clone());
            }
            i += 1;
        }
        Err(TimeoutError)
    }

    /// Like `next_event`, resolving with the first same-subject message
    /// whose text the message predicate accepts.
    pub fn next_message<F: MessageFilter>(
        &self,
        arrivals: &Vec<GroupMessageEvent>,
        filter: &F,
    ) -> (r: Result<String, TimeoutError>)
        ensures
            r is Ok <==> exists|i: int|
                0 <= i < arrivals@.len() && self.same_subject(#[trigger] arrivals@[i])
                    && filter.spec_accept(arrivals@[i].payload().message@),
            r is Ok ==> exists|i: int|
                0 <= i < arrivals@.len() && self.same_subject(#[trigger] arrivals@[i])
                    && filter.spec_accept(arrivals@[i].payload().message@) && r->Ok_0
                    == arrivals@[i].payload().message && (forall|j: int|
                    0 <= j < i ==> !(self.same_subject(#[trigger] arrivals@[j])
                        && filter.spec_accept(arrivals@[j].payload().message@))),
            r is Err ==> r == Err::<String, TimeoutError>(TimeoutError),
    {
        let lifted = ByMessage { filter };
        match self.next_event(arrivals, &lifted) {
            Ok(e) => Ok(e.message().clone()),
            Err(t) => Err(t),
        }
    }
}

} // verus!
