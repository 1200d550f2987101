//! The cross-boundary transport: each event variant has a stable small
//! integer discriminant, and an event crosses into a dynamically loaded
//! plugin as an envelope of that discriminant plus a type-erased managed
//! handle owning the payload.
//!
//! The discriminant assignment and its decoding (with the fallback for
//! discriminants this build does not know) are verified here; the managed
//! handle is an opaque value of the FFI support crate.

use vstd::prelude::*;

use crate::event::Event;

verus! {

/// The managed handle of the FFI support crate: an owned, type-erased
/// pointer paired with its destructor, so the plugin side can release it
/// without knowing the concrete payload type.
#[verifier::external_type_specification]
#[verifier::external_body]
pub struct ExManaged(atri_ffi::Managed);

/// Relies on `atri_ffi::Managed::from_value`: boxes an owned value into a
/// type-erased managed handle carrying the matching destructor.
pub assume_specification<T>[ atri_ffi::Managed::from_value ](value: T) -> atri_ffi::Managed;

/// The shape of an event as seen across the plugin boundary.
#[derive(Clone, Copy, PartialEq, Eq, Structural, Debug)]
pub enum EventKind {
    BotOnline,
    GroupMessage,
    FriendMessage,
    Unknown,
}

/// The stable discriminant of each shape.
pub open spec fn spec_discriminant(k: EventKind) -> u8 {
    match k {
        EventKind::BotOnline => 0,
        EventKind::GroupMessage => 1,
        EventKind::FriendMessage => 2,
        EventKind::Unknown => 255,
    }
}

/// The shape a received discriminant decodes to.  Discriminants this build
/// does not know fall back to `Unknown` so a plugin built against an older
/// set of variants stays loadable.
pub open spec fn spec_kind_of(t: u8) -> EventKind {
    if t == 0 {
        EventKind::BotOnline
    } else if t == 1 {
        EventKind::GroupMessage
    } else if t == 2 {
        EventKind::FriendMessage
    } else {
        EventKind::Unknown
    }
}

pub fn kind_of_discriminant(t: u8) -> (k: EventKind)
    ensures
        k == spec_kind_of(t),
{
    if t == 0 {
        EventKind::BotOnline
    } else if t == 1 {
        EventKind::GroupMessage
    } else if t == 2 {
        EventKind::FriendMessage
    } else {
        EventKind::Unknown
    }
}

/// Decoding a discriminant the engine emitted always recovers the shape it
/// was emitted for.
pub proof fn lemma_discriminant_round_trip(k: EventKind)
    ensures
        spec_kind_of(spec_discriminant(k)) == k,
{
}

/// The type-erased envelope an event crosses the plugin boundary in.
pub struct Envelope {
    pub t: u8,
    pub handle: atri_ffi::Managed,
}

impl Event {
    /// The shape of this event.
    pub open spec fn kind(self) -> EventKind {
        match self {
            Event::BotOnlineEvent(_) => EventKind::BotOnline,
            Event::GroupMessageEvent(_) => EventKind::GroupMessage,
            Event::FriendMessageEvent(_) => EventKind::FriendMessage,
            Event::Unknown(_) => EventKind::Unknown,
        }
    }

    /// The stable discriminant of this event's shape.
    pub fn discriminant(&self) -> (t: u8)
        ensures
            t == spec_discriminant(self.kind()),
    {
        match self {
            Event::BotOnlineEvent(_) => 0,
            Event::GroupMessageEvent(_) => 1,
            Event::FriendMessageEvent(_) => 2,
            Event::Unknown(_) => 255,
        }
    }

    /// Erases this event into its envelope: the discriminant identifying
    /// the variant, and a managed handle owning the payload.  The host
    /// completes the plugin-side record from it at the boundary.
    pub fn into_ffi(self) -> (r: Envelope)
        ensures
            r.t == spec_discriminant(self.kind()),
    {
        let t = self.discriminant();
        let handle = match self {
            Event::BotOnlineEvent(e) => atri_ffi::Managed::from_value(e),
            Event::GroupMessageEvent(e) => atri_ffi::Managed::from_value(e),
            Event::FriendMessageEvent(e) => atri_ffi::Managed::from_value(e),
            Event::Unknown(e) => atri_ffi::Managed::from_value(e),
        };
        Envelope { t, handle }
    }
}

} // verus!
