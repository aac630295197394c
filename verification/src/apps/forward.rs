//! An application that forwards the events of its input device to its output device.
use vstd::prelude::*;

use std::collections::VecDeque;

use super::{App, In, Out, RecvError, SendError};
use crate::image::Image;
use crate::midi::Event;

verus! {

pub const NAME: &'static str = "forward";

pub const COLOR: [u8; 3] = [0, 0, 255];

/// The forward application needs no configuration.
#[derive(Clone, Debug)]
pub struct Config {}

impl Config {
    /// A copy of this configuration.
    pub fn duplicate(&self) -> (r: Config)
        ensures
            r == *self,
    {
        Config {  }
    }
}

/// The configuration of the application: there is nothing to ask.
pub fn configure() -> (r: Config)
    ensures
        r == (Config {  }),
{
    Config {  }
}

/// The forward application: the MIDI events it receives wait in line until the router polls
/// them.
pub struct Forward {
    pending: VecDeque<Event>,
}

impl Forward {
    /// The events waiting to be forwarded, oldest first.
    pub closed spec fn pending(&self) -> Seq<Event> {
        self.pending@
    }

    /// A forward application with no event waiting.
    pub fn new(config: Config) -> (r: Forward)
        ensures
            r.pending() == Seq::<Event>::empty(),
    {
        Forward { pending: VecDeque::new() }
    }
}

/// The logo of the forward application: an empty picture.
pub fn get_logo() -> (r: Image)
    ensures
        r.width == 0,
        r.height == 0,
        r.bytes@ == Seq::<u8>::empty(),
{
    Image { width: 0, height: 0, bytes: Vec::new() }
}

/// The events waiting after `event` was handed over to a forward application with `pending`
/// waiting: a MIDI event joins the line, a command of the web player is dropped.
pub open spec fn forwarded(pending: Seq<Event>, event: In) -> Seq<Event> {
    match event {
        In::Midi(e) => pending.push(e),
        In::Server(_) => pending,
    }
}

/// The events waiting after `events` were handed over one after the other.
pub open spec fn forwarded_all(pending: Seq<Event>, events: Seq<In>) -> Seq<Event>
    decreases events.len(),
{
    if events.len() == 0 {
        pending
    } else {
        forwarded(forwarded_all(pending, events.drop_last()), events.last())
    }
}

/// The MIDI events among `events`, in order.
pub open spec fn midi_events(events: Seq<In>) -> Seq<Event>
    decreases events.len(),
{
    if events.len() == 0 {
        Seq::empty()
    } else {
        match events.last() {
            In::Midi(e) => midi_events(events.drop_last()).push(e),
            In::Server(_) => midi_events(events.drop_last()),
        }
    }
}

/// However many events are handed over, the MIDI events join the line in the order they
/// came, after those already waiting, and the commands are dropped; polling then gives them
/// back from the oldest.
pub proof fn forwarding_keeps_the_order_of_midi_events(pending: Seq<Event>, events: Seq<In>)
    ensures
        forwarded_all(pending, events) == pending + midi_events(events),
    decreases events.len(),
{
    if events.len() > 0 {
        forwarding_keeps_the_order_of_midi_events(pending, events.drop_last());
        match events.last() {
            In::Midi(e) => {
                assert((pending + midi_events(events.drop_last())).push(e) =~= pending + midi_events(
                    events.drop_last(),
                ).push(e));
            },
            In::Server(_) => {},
        }
    } else {
        assert(pending + Seq::<Event>::empty() =~= pending);
    }
}

impl App for Forward {
    open spec fn has_color(&self, color: [u8; 3]) -> bool {
        color == COLOR
    }

    open spec fn has_logo(&self, logo: Image) -> bool {
        logo.width == 0 && logo.height == 0 && logo.bytes@.len() == 0
    }

    /// MIDI events wait in line; commands of the web player are dropped.
    open spec fn accepts(&self, event: In, next: Self, r: Result<(), SendError>) -> bool {
        r is Ok && next.pending() == forwarded(self.pending(), event)
    }

    /// The oldest waiting event, for the output device.
    open spec fn emits(&self, next: Self, r: Result<Out, RecvError>) -> bool {
        if self.pending().len() == 0 {
            r == Err::<Out, RecvError>(RecvError::Empty) && next.pending() == self.pending()
        } else {
            r == Ok::<Out, RecvError>(Out::Midi(self.pending()[0])) && next.pending()
                == self.pending().drop_first()
        }
    }

    fn get_name(&self) -> (r: &'static str)
        ensures
            r == NAME,
    {
        NAME
    }

    fn get_color(&self) -> (r: [u8; 3]) {
        COLOR
    }

    fn get_logo(&self) -> (r: Image) {
        get_logo()
    }

    fn send(&mut self, event: In) -> (r: Result<(), SendError>) {
        if let In::Midi(e) = event {
            self.pending.push_back(e);
        }
        Ok(())
    }

    fn receive(&mut self) -> (r: Result<Out, RecvError>) {
        match self.pending.pop_front() {
            Some(e) => Ok(Out::Midi(e)),
            None => Err(RecvError::Empty),
        }
    }

    fn on_select(&mut self) {
    }
}

} // verus!
