//! The Launchpad Pro reached through a pair of ports, one to read from, one to write to.
use vstd::prelude::*;

pub mod event;

use crate::image::Image;
use crate::midi::grid::{pad_index, pad_index_of};
use crate::midi::{Error, Event, FromImages, Reader, Writer};
use event::image::images_frame;
use event::LaunchpadProEvent;

verus! {

/// The four bytes of a MIDI message.
#[derive(Clone, Copy, Debug, PartialEq, Eq)]
pub struct MidiMessage {
    pub status: u8,
    pub data1: u8,
    pub data2: u8,
    pub data3: u8,
}

impl From<[u8; 4]> for MidiMessage {
    fn from(bytes: [u8; 4]) -> (r: MidiMessage) {
        MidiMessage { status: bytes[0], data1: bytes[1], data2: bytes[2], data3: bytes[3] }
    }
}

impl vstd::std_specs::convert::FromSpecImpl<[u8; 4]> for MidiMessage {
    open spec fn obeys_from_spec() -> bool {
        true
    }

    open spec fn from_spec(bytes: [u8; 4]) -> MidiMessage {
        MidiMessage { status: bytes@[0], data1: bytes@[1], data2: bytes@[2], data3: bytes@[3] }
    }
}

/// A MIDI message with the time at which it was received.
#[derive(Clone, Copy, Debug, PartialEq, Eq)]
pub struct MidiEvent {
    pub message: MidiMessage,
    pub timestamp: u32,
}

impl From<MidiMessage> for MidiEvent {
    /// The message, stamped at time 0.
    fn from(message: MidiMessage) -> (r: MidiEvent) {
        MidiEvent { message, timestamp: 0 }
    }
}

impl vstd::std_specs::convert::FromSpecImpl<MidiMessage> for MidiEvent {
    open spec fn obeys_from_spec() -> bool {
        true
    }

    open spec fn from_spec(message: MidiMessage) -> MidiEvent {
        MidiEvent { message, timestamp: 0 }
    }
}

/// The index (0 to 63, from the bottom-left corner) of the central pad that a "note down"
/// event with a strictly positive velocity presses.
pub open spec fn event_index(event: MidiEvent) -> Option<u16> {
    if event.message.status == 144 && event.message.data2 > 0 {
        match pad_index(event.message.data1 as int) {
            Some(i) => Some(i as u16),
            None => None,
        }
    } else {
        None
    }
}

/// The index of the central pad that `event` presses, if any.
pub fn map_event_to_index(event: MidiEvent) -> (r: Option<u16>)
    ensures
        r == event_index(event),
{
    // event must be a "note down" with a strictly positive velocity
    if event.message.status != 144 || event.message.data2 == 0 {
        return None;
    }
    match pad_index_of(event.message.data1) {
        Some(index) => Some(index as u16),
        None => None,
    }
}

/// The index that a message designates is the same whether it is read from a port or seen as
/// an event of the device.
pub proof fn ports_and_events_agree_on_indices(bytes: [u8; 4])
    ensures
        event_index(MidiEvent { message: MidiMessage { status: bytes@[0], data1: bytes@[1], data2: bytes@[2], data3: bytes@[3] }, timestamp: 0 })
            == crate::midi::devices::launchpadpro::as_u16(crate::midi::devices::launchpadpro::launchpad_index(Event::Midi(bytes))),
{
}

/// The index that a read of a 4-byte message gives: the index of the central pad it presses,
/// if any; nothing when nothing was waiting; the error of the read when it failed.
pub fn index_of_read(read: Result<Option<[u8; 4]>, Error>) -> (r: Result<Option<u16>, Error>)
    ensures
        match read {
            Ok(Some(m)) => r == Ok::<Option<u16>, Error>(
                event_index(MidiEvent { message: MidiMessage { status: m@[0], data1: m@[1], data2: m@[2], data3: m@[3] }, timestamp: 0 }),
            ),
            Ok(None) => r == Ok::<Option<u16>, Error>(None),
            Err(e) => r == Err::<Option<u16>, Error>(e),
        },
        r matches Ok(Some(i)) ==> i < 64,
{
    match read {
        Ok(Some(m)) => Ok(map_event_to_index(MidiEvent::from(MidiMessage::from(m)))),
        Ok(None) => Ok(None),
        Err(e) => Err(e),
    }
}

/// A Launchpad Pro behind an input port and an output port.
pub struct LaunchpadPro<I, O> {
    pub input_port: I,
    pub output_port: O,
}

impl<I, O> From<(I, O)> for LaunchpadPro<I, O> {
    fn from(ports: (I, O)) -> (r: LaunchpadPro<I, O>) {
        LaunchpadPro { input_port: ports.0, output_port: ports.1 }
    }
}

impl<I, O> vstd::std_specs::convert::FromSpecImpl<(I, O)> for LaunchpadPro<I, O> {
    open spec fn obeys_from_spec() -> bool {
        true
    }

    open spec fn from_spec(ports: (I, O)) -> LaunchpadPro<I, O> {
        LaunchpadPro { input_port: ports.0, output_port: ports.1 }
    }
}

impl<I, O> LaunchpadPro<I, O> {
    /// The rows of a 24-bit RGB picture of the grid in the reverse order: the device places
    /// its origin at the bottom-left corner.
    pub fn reverse_rows(bytes: Vec<u8>) -> (r: Result<Vec<u8>, Error>)
        ensures
            bytes@.len() != 192 ==> r == Err::<Vec<u8>, Error>(Error::ImageRenderError),
            bytes@.len() == 192 ==> (r matches Ok(reversed) && reversed@
                == crate::midi::grid::reversed_rows(bytes@, 8, 8)),
    {
        event::image::reverse_rows(bytes)
    }
}

impl<I: Reader, O: Writer> LaunchpadPro<I, O> {
    /// Renders a single image over the whole grid, or 64 images, one per pad; any other number
    /// of images cannot be rendered.
    pub fn render(&mut self, images: Vec<Image>) -> (r: Result<(), Error>)
        ensures
            images_frame(images@) is Err ==> r == Err::<(), Error>(Error::ImageRenderError),
            r is Ok ==> images_frame(images@) is Ok,
    {
        let rendered = LaunchpadProEvent::from_images(images)?;
        match rendered.event {
            Event::SysEx(bytes) => match self.output_port.write_sysex(bytes.as_slice()) {
                Ok(()) => Ok(()),
                Err(_) => Err(Error::ImageRenderError),
            },
            Event::Midi(m) => match self.output_port.write_midi(&m) {
                Ok(()) => Ok(()),
                Err(_) => Err(Error::ImageRenderError),
            },
        }
    }

    /// The index of the central pad pressed by the next event, if one is waiting and presses
    /// a central pad.
    pub fn read_index(&mut self) -> (r: Result<Option<u16>, Error>)
        ensures
            r matches Ok(Some(i)) ==> i < 64,
            final(self).output_port == old(self).output_port,
    {
        index_of_read(self.input_port.read_midi())
    }
}

impl<I: Reader, O: Writer> Reader for LaunchpadPro<I, O> {
    /// Reads from the input port; the output port stays as it is.
    fn read_midi(&mut self) -> (r: Result<Option<[u8; 4]>, Error>)
        ensures
            final(self).output_port == old(self).output_port,
    {
        self.input_port.read_midi()
    }
}

impl<I: Reader, O: Writer> Writer for LaunchpadPro<I, O> {
    /// Writes to the output port; the input port stays as it is.
    fn write_midi(&mut self, event: &[u8; 4]) -> (r: Result<(), Error>)
        ensures
            final(self).input_port == old(self).input_port,
    {
        self.output_port.write_midi(event)
    }

    /// Writes to the output port; the input port stays as it is.
    fn write_sysex(&mut self, event: &[u8]) -> (r: Result<(), Error>)
        ensures
            final(self).input_port == old(self).input_port,
    {
        self.output_port.write_sysex(event)
    }
}

} // verus!
