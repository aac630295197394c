use vstd::prelude::*;

use super::Error;

verus! {

/// What flows from and to MIDI devices: a plain 4-byte MIDI message (status, data1, data2,
/// data3), or a System Exclusive message.
#[derive(Clone, Debug, PartialEq)]
pub enum Event {
    Midi([u8; 4]),
    SysEx(Vec<u8>),
}

/// Whether `a` and `b` carry the same message.
pub open spec fn same_event(a: Event, b: Event) -> bool {
    match (a, b) {
        (Event::Midi(x), Event::Midi(y)) => x == y,
        (Event::SysEx(x), Event::SysEx(y)) => x@ == y@,
        _ => false,
    }
}

impl Event {
    /// A copy of this event.
    pub fn duplicate(&self) -> (r: Event)
        ensures
            same_event(r, *self),
    {
        match self {
            Event::Midi(m) => Event::Midi(*m),
            Event::SysEx(bytes) => Event::SysEx(bytes.clone()),
        }
    }
}

/// The event that a read of a 4-byte message gives: the message wrapped as [`Event::Midi`],
/// nothing when nothing was waiting, the error of the read when it failed.
pub fn event_of_read(read: Result<Option<[u8; 4]>, Error>) -> (r: Result<Option<Event>, Error>)
    ensures
        match read {
            Ok(Some(m)) => r == Ok::<Option<Event>, Error>(Some(Event::Midi(m))),
            Ok(None) => r == Ok::<Option<Event>, Error>(None),
            Err(e) => r == Err::<Option<Event>, Error>(e),
        },
{
    match read {
        Ok(Some(m)) => Ok(Some(Event::Midi(m))),
        Ok(None) => Ok(None),
        Err(e) => Err(e),
    }
}

/// A MIDI device that emits MIDI events.
pub trait Reader {
    /// The next 4-byte message, if one is waiting.
    fn read_midi(&mut self) -> Result<Option<[u8; 4]>, Error>;

    /// The next event, if one is waiting: a 4-byte message wrapped as [`Event::Midi`].
    fn read(&mut self) -> (r: Result<Option<Event>, Error>)
        default_ensures
            r matches Ok(Some(e)) ==> e is Midi,
    {
        event_of_read(self.read_midi())
    }
}

/// A MIDI device that receives MIDI events and System Exclusive messages.
pub trait Writer {
    fn write_midi(&mut self, event: &[u8; 4]) -> Result<(), Error>;

    fn write_sysex(&mut self, event: &[u8]) -> Result<(), Error>;

    /// Writes `event` with the method that fits its kind.
    fn write(&mut self, event: Event) -> Result<(), Error> {
        match event {
            Event::Midi(event) => self.write_midi(&event),
            Event::SysEx(event) => self.write_sysex(event.as_slice()),
        }
    }
}

/// The data byte of a "note down" message (status 144) with a strictly positive velocity.
pub open spec fn note_down(event: Event) -> Option<u8> {
    match event {
        Event::Midi(m) => if m@[0] == 144 && m@[2] > 0 {
            Some(m@[1])
        } else {
            None
        },
        Event::SysEx(_) => None,
    }
}

/// The data byte of a "control change" message (status 176) with a strictly positive value.
pub open spec fn control_on(event: Event) -> Option<u8> {
    match event {
        Event::Midi(m) => if m@[0] == 176 && m@[2] > 0 {
            Some(m@[1])
        } else {
            None
        },
        Event::SysEx(_) => None,
    }
}

/// The data byte of `event` if it is a message with the given status and a strictly positive
/// second data byte.
pub fn pressed_with_status(event: &Event, status: u8) -> (r: Option<u8>)
    ensures
        status == 144 ==> r == note_down(*event),
        status == 176 ==> r == control_on(*event),
{
    match event {
        Event::Midi(m) => if m[0] == status && m[2] > 0 {
            Some(m[1])
        } else {
            None
        },
        Event::SysEx(_) => None,
    }
}

} // verus!
