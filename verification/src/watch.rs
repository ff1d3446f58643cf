//! Events about device changes.
use vstd::prelude::*;

verus! {

/// What happened to a device.
#[derive(Clone, Copy, Debug, PartialEq, Eq, Structural)]
pub enum EventKind {
    /// The device appeared.
    Arrival,
    /// Something about the device changed.
    Change,
    /// The device went away.
    Removal,
}

/// One notification about a device.
#[derive(Clone, Copy, Debug, PartialEq, Eq, Structural)]
pub struct Event {
    kind: EventKind,
}

impl View for Event {
    type V = EventKind;

    closed spec fn view(&self) -> EventKind {
        self.kind
    }
}

impl Event {
    /// A notification of the given kind.
    pub fn new(kind: EventKind) -> (event: Self)
        ensures
            event@ == kind,
    {
        Event { kind }
    }

    /// What the notification is about.
    pub fn kind(&self) -> (kind: EventKind)
        ensures
            kind == self@,
    {
        self.kind
    }
}

/// Receives the notifications of a watch.
pub trait EventHandler {
    /// Called once for each notification, in the order in which they arrive.
    fn handle_event(&mut self, event: Event);
}

} // verus!
