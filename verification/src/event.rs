//! Events, as far as the watcher reads them.

use crate::error::XError;
use vstd::prelude::*;

verus! {

/// The type code of a property-change notification.
pub const PROPERTY_NOTIFY: i32 = 28;

/// The event mask that selects property-change notifications and nothing else.
pub const PROPERTY_CHANGE_MASK: i64 = 0x0040_0000;

/// The subscription of one window to a set of event classes.
#[derive(Clone, Copy, Debug, PartialEq, Eq, Structural)]
pub struct SelectInput {
    /// The window whose events are wanted.
    pub window: u64,
    /// One bit for each class of events that the window shall report.
    pub event_mask: i64,
}

/// A property-change notification, field for field as the server sent it.
#[derive(Clone, Copy, Debug, PartialEq, Eq, Structural)]
pub struct XPropertyEvent {
    /// The type code of the event.
    pub type_: i32,
    /// The number of the last request that the server had processed.
    pub serial: u64,
    /// Nonzero when another client sent the event.
    pub send_event: i32,
    /// The window whose property changed.
    pub window: u64,
    /// The atom of the property that changed.
    pub atom: u64,
    /// The server time of the change.
    pub time: u64,
    /// Whether the property got a new value or was deleted.
    pub state: i32,
}

/// An event taken from the queue. Every class of event starts with the same
/// fields; the rest is kept as a property-change notification lays it out,
/// and means something only when the type code says that it is one.
#[derive(Clone, Copy, Debug, PartialEq, Eq, Structural)]
pub struct XEvent {
    /// The event, read as a property-change notification.
    pub property: XPropertyEvent,
}

impl XEvent {
    /// The type code of the event.
    pub open spec fn spec_get_type(&self) -> i32 {
        self.property.type_
    }

    /// The type code of the event.
    #[verifier::when_used_as_spec(spec_get_type)]
    pub fn get_type(&self) -> (t: i32)
        ensures
            t == self.spec_get_type(),
    {
        self.property.type_
    }

    /// Whether the event is a property-change notification.
    pub open spec fn is_property_notify(&self) -> bool {
        self.property.type_ == PROPERTY_NOTIFY
    }
}

/// What becomes of one event that the wait for a desktop change took from the
/// queue.
#[derive(Clone, Copy, Debug, PartialEq, Eq, Structural)]
pub enum Verdict {
    /// The active desktop changed: the wait ends and returns this event.
    Deliver(XPropertyEvent),
    /// Some other property changed: the event is dropped and the wait goes on.
    Skip,
}

/// What the wait does with `event` when the active-desktop property goes by
/// the atom `wanted`: it delivers a notification for that atom, skips a
/// notification for any other, and fails on an event of another class.
pub open spec fn verdict(event: XEvent, wanted: u64) -> Result<Verdict, XError> {
    if !event.is_property_notify() {
        Err(XError::UnexpectedEvent { type_: event.property.type_ })
    } else if event.property.atom == wanted {
        Ok(Verdict::Deliver(event.property))
    } else {
        Ok(Verdict::Skip)
    }
}

} // verus!
