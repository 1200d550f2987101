//! The event model: a closed set of event variants, each wrapping an
//! `EventInner<T>` that pairs an interception flag with an immutable payload.
//!
//! In the running host the flag is shared between clones of the same logical
//! event; here the flag is an explicit field and every transition on it is a
//! contract, so interception is verified to be one-way: no operation resets
//! it.  The domain objects behind an event (group, bot, message content) are
//! external collaborators; the engine reads only the plain values modelled by
//! the payload structs below.

use vstd::prelude::*;

verus! {

/// What the engine reads of a group message: the group, the account that
/// received it, the sender, and the textual content.
pub struct GroupMessagePayload {
    pub group: i64,
    pub bot: i64,
    pub sender: i64,
    pub message: String,
}

impl Clone for GroupMessagePayload {
    fn clone(&self) -> (r: Self)
        ensures
            r == *self,
    {
        GroupMessagePayload {
            group: self.group,
            bot: self.bot,
            sender: self.sender,
            message: self.message.clone(),
        }
    }
}

/// What the engine reads of a friend message.
pub struct FriendMessagePayload {
    pub friend: i64,
    pub bot: i64,
    pub message: String,
}

impl Clone for FriendMessagePayload {
    fn clone(&self) -> (r: Self)
        ensures
            r == *self,
    {
        FriendMessagePayload {
            friend: self.friend,
            bot: self.bot,
            message: self.message.clone(),
        }
    }
}

/// A session-online notification for one account.
pub struct BotOnlinePayload {
    pub bot: i64,
}

impl Clone for BotOnlinePayload {
    fn clone(&self) -> (r: Self)
        ensures
            r == *self,
    {
        BotOnlinePayload { bot: self.bot }
    }
}

/// A raw protocol notification the engine has no structured model for.
pub struct UnknownPayload {
    pub description: String,
}

impl Clone for UnknownPayload {
    fn clone(&self) -> (r: Self)
        ensures
            r == *self,
    {
        UnknownPayload { description: self.description.clone() }
    }
}

/// Shared state of one logical event: the one-way interception flag plus the
/// immutable payload.  The payload is never changed after construction; the
/// flag can only go from `false` to `true`.
pub struct EventInner<T> {
    intercepted: bool,
    event: T,
}

impl<T> EventInner<T> {
    /// The interception flag.
    pub closed spec fn spec_intercepted(&self) -> bool {
        self.intercepted
    }

    /// The payload handed in at construction.
    pub closed spec fn payload(&self) -> T {
        self.event
    }

    pub fn new(event: T) -> (r: Self)
        ensures
            !r.spec_intercepted(),
            r.payload() == event,
    {
        EventInner { intercepted: false, event }
    }

    /// Marks the event as intercepted.  Idempotent, and irreversible: no
    /// operation of this type ever clears the flag again.
    pub fn intercept(&mut self)
        ensures
            final(self).spec_intercepted(),
            final(self).payload() == old(self).payload(),
    {
        self.intercepted = true;
    }

    pub fn is_intercepted(&self) -> (r: bool)
        ensures
            r == self.spec_intercepted(),
    {
        self.intercepted
    }

    /// Read access to the payload.
    pub fn get(&self) -> (r: &T)
        ensures
            *r == self.payload(),
    {
        &self.event
    }
}

impl Clone for EventInner<GroupMessagePayload> {
    fn clone(&self) -> (r: Self)
        ensures
            r == *self,
    {
        EventInner { intercepted: self.intercepted, event: self.event.clone() }
    }
}

impl Clone for EventInner<FriendMessagePayload> {
    fn clone(&self) -> (r: Self)
        ensures
            r == *self,
    {
        EventInner { intercepted: self.intercepted, event: self.event.clone() }
    }
}

impl Clone for EventInner<BotOnlinePayload> {
    fn clone(&self) -> (r: Self)
        ensures
            r == *self,
    {
        EventInner { intercepted: self.intercepted, event: self.event.clone() }
    }
}

impl Clone for EventInner<UnknownPayload> {
    fn clone(&self) -> (r: Self)
        ensures
            r == *self,
    {
        EventInner { intercepted: self.intercepted, event: self.event.clone() }
    }
}

pub type GroupMessageEvent = EventInner<GroupMessagePayload>;

pub type FriendMessageEvent = EventInner<FriendMessagePayload>;

pub type BotOnlineEvent = EventInner<BotOnlinePayload>;

impl EventInner<GroupMessagePayload> {
    /// Wraps a freshly arrived group message into an event.
    pub fn from(group: i64, bot: i64, sender: i64, message: String) -> (r: Self)
        ensures
            !r.spec_intercepted(),
            r.payload() == (GroupMessagePayload { group, bot, sender, message }),
    {
        Self::new(GroupMessagePayload { group, bot, sender, message })
    }

    pub fn group(&self) -> (r: i64)
        ensures
            r == self.payload().group,
    {
        self.get().group
    }

    pub fn bot(&self) -> (r: i64)
        ensures
            r == self.payload().bot,
    {
        self.get().bot
    }

    pub fn sender(&self) -> (r: i64)
        ensures
            r == self.payload().sender,
    {
        self.get().sender
    }

    pub fn message(&self) -> (r: &String)
        ensures
            *r == self.payload().message,
    {
        &self.get().message
    }
}

impl EventInner<BotOnlinePayload> {
    /// Wraps a session-online notification for the given account.
    pub fn from(bot: i64) -> (r: Self)
        ensures
            !r.spec_intercepted(),
            r.payload() == (BotOnlinePayload { bot }),
    {
        Self::new(BotOnlinePayload { bot })
    }
}

impl EventInner<UnknownPayload> {
    /// Wraps a raw notification the engine does not model further.
    pub fn from(description: String) -> (r: Self)
        ensures
            !r.spec_intercepted(),
            r.payload() == (UnknownPayload { description }),
    {
        Self::new(UnknownPayload { description })
    }
}

/// The closed set of event variants the engine dispatches.
pub enum Event {
    BotOnlineEvent(BotOnlineEvent),
    GroupMessageEvent(GroupMessageEvent),
    FriendMessageEvent(FriendMessageEvent),
    Unknown(EventInner<UnknownPayload>),
}

impl Event {
    /// The interception flag of whichever variant is held.
    pub open spec fn spec_intercepted(self) -> bool {
        match self {
            Event::BotOnlineEvent(e) => e.spec_intercepted(),
            Event::GroupMessageEvent(e) => e.spec_intercepted(),
            Event::FriendMessageEvent(e) => e.spec_intercepted(),
            Event::Unknown(e) => e.spec_intercepted(),
        }
    }

    /// Two events carry the same payload in the same variant; only the
    /// interception flag may differ.
    pub open spec fn same_payload(a: Event, b: Event) -> bool {
        match (a, b) {
            (Event::BotOnlineEvent(x), Event::BotOnlineEvent(y)) => x.payload() == y.payload(),
            (Event::GroupMessageEvent(x), Event::GroupMessageEvent(y)) => x.payload()
                == y.payload(),
            (Event::FriendMessageEvent(x), Event::FriendMessageEvent(y)) => x.payload()
                == y.payload(),
            (Event::Unknown(x), Event::Unknown(y)) => x.payload() == y.payload(),
            _ => false,
        }
    }

    /// Marks the event as intercepted, whichever variant is held.  The
    /// payload is untouched and the flag never goes back to `false`.
    pub fn intercept(&mut self)
        ensures
            final(self).spec_intercepted(),
            Event::same_payload(*old(self), *final(self)),
    {
        match self {
            Event::BotOnlineEvent(e) => e.intercept(),
            Event::GroupMessageEvent(e) => e.intercept(),
            Event::FriendMessageEvent(e) => e.intercept(),
            Event::Unknown(e) => e.intercept(),
        }
    }

    pub fn is_intercepted(&self) -> (r: bool)
        ensures
            r == self.spec_intercepted(),
    {
        match self {
            Event::BotOnlineEvent(e) => e.is_intercepted(),
            Event::GroupMessageEvent(e) => e.is_intercepted(),
            Event::FriendMessageEvent(e) => e.is_intercepted(),
            Event::Unknown(e) => e.is_intercepted(),
        }
    }
}

impl Clone for Event {
    fn clone(&self) -> (r: Self)
        ensures
            r == *self,
    {
        match self {
            Event::BotOnlineEvent(e) => Event::BotOnlineEvent(e.clone()),
            Event::GroupMessageEvent(e) => Event::GroupMessageEvent(e.clone()),
            Event::FriendMessageEvent(e) => Event::FriendMessageEvent(e.clone()),
            Event::Unknown(e) => Event::Unknown(e.clone()),
        }
    }
}

/// Typed extraction: a capability to view an `Event` as one concrete shape.
/// `from_event` yields `Some` exactly on the shapes the implementor fits, and
/// then returns precisely the extracted value.
pub trait FromEvent: Sized {
    /// Which events this shape fits.
    spec fn fits(e: Event) -> bool;

    /// The value extracted from a fitting event.
    spec fn extract(e: Event) -> Self;

    fn from_event(e: Event) -> (r: Option<Self>)
        ensures
            r is Some <==> Self::fits(e),
            Self::fits(e) ==> r == Some(Self::extract(e)),
    ;
}

impl FromEvent for Event {
    open spec fn fits(e: Event) -> bool {
        true
    }

    open spec fn extract(e: Event) -> Self {
        e
    }

    fn from_event(e: Event) -> (r: Option<Self>) {
        Some(e)
    }
}

impl FromEvent for GroupMessageEvent {
    open spec fn fits(e: Event) -> bool {
        e is GroupMessageEvent
    }

    open spec fn extract(e: Event) -> Self {
        e->GroupMessageEvent_0
    }

    fn from_event(e: Event) -> (r: Option<Self>) {
        if let Event::GroupMessageEvent(e) = e {
            Some(e)
        } else {
            None
        }
    }
}

impl FromEvent for FriendMessageEvent {
    open spec fn fits(e: Event) -> bool {
        e is FriendMessageEvent
    }

    open spec fn extract(e: Event) -> Self {
        e->FriendMessageEvent_0
    }

    fn from_event(e: Event) -> (r: Option<Self>) {
        if let Event::FriendMessageEvent(e) = e {
            Some(e)
        } else {
            None
        }
    }
}

/// Either kind of message event, for handlers that listen to both.
pub enum MessageEvent {
    Group(GroupMessageEvent),
    Friend(FriendMessageEvent),
}

impl FromEvent for MessageEvent {
    open spec fn fits(e: Event) -> bool {
        e is GroupMessageEvent || e is FriendMessageEvent
    }

    open spec fn extract(e: Event) -> Self {
        if e is GroupMessageEvent {
            MessageEvent::Group(e->GroupMessageEvent_0)
        } else {
            MessageEvent::Friend(e->FriendMessageEvent_0)
        }
    }

    fn from_event(e: Event) -> (r: Option<Self>) {
        match e {
            Event::GroupMessageEvent(e) => Some(MessageEvent::Group(e)),
            Event::FriendMessageEvent(e) => Some(MessageEvent::Friend(e)),
            _ => None,
        }
    }
}

} // verus!
