use vstd::prelude::*;

pub mod image;
pub mod index;

use crate::midi::Event;

verus! {

/// A MIDI event seen as one of the Launchpad Pro.
#[derive(Clone, Debug)]
pub struct LaunchpadProEvent {
    pub event: Event,
}

impl From<Event> for LaunchpadProEvent {
    fn from(event: Event) -> (r: LaunchpadProEvent) {
        LaunchpadProEvent { event }
    }
}

impl vstd::std_specs::convert::FromSpecImpl<Event> for LaunchpadProEvent {
    open spec fn obeys_from_spec() -> bool {
        true
    }

    open spec fn from_spec(event: Event) -> LaunchpadProEvent {
        LaunchpadProEvent { event }
    }
}

impl From<LaunchpadProEvent> for Event {
    fn from(event: LaunchpadProEvent) -> (r: Event) {
        event.event
    }
}

impl vstd::std_specs::convert::FromSpecImpl<LaunchpadProEvent> for Event {
    open spec fn obeys_from_spec() -> bool {
        true
    }

    open spec fn from_spec(event: LaunchpadProEvent) -> Event {
        event.event
    }
}

} // verus!
