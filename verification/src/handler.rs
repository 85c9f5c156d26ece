//! What becomes of a notification once it has arrived.

use crate::event::{EventType, NotificationEvent, TypeToString};
use vstd::prelude::*;

verus! {

/// A notification on its way to the front-end.
pub struct EventHandler {
    event: NotificationEvent,
}

impl View for EventHandler {
    type V = NotificationEvent;

    closed spec fn view(&self) -> NotificationEvent {
        self.event
    }
}

/// The name under which a notification of `kind` is passed on to the
/// front-end: its name on the wire. The answer to the liveness probe is not
/// passed on.
pub open spec fn emitted_as(kind: EventType) -> Option<Seq<char>> {
    if kind == EventType::Pong {
        None
    } else {
        Some(kind.wire_name())
    }
}

impl EventHandler {
    /// The handler of `event`.
    pub fn new(event: NotificationEvent) -> (handler: EventHandler)
        ensures
            handler@ == event,
    {
        EventHandler { event }
    }

    /// The notification.
    pub fn event(&self) -> (event: &NotificationEvent)
        ensures
            *event == self@,
    {
        &self.event
    }

    /// The name under which the notification is passed on, or `None` where
    /// it is dropped.
    pub fn emit_name(&self) -> (name: Option<&'static str>)
        ensures
            match name {
                Some(text) => emitted_as(self@.event_type) == Some(text@),
                None => emitted_as(self@.event_type) is None,
            },
    {
        match self.event.event_type {
            EventType::Pong => None,
            kind => Some(kind.to_string()),
        }
    }
}

} // verus!
