use vstd::prelude::*;

use crate::midi::{Error, Reader, Writer};

verus! {

/// A Launchpad Pro reached through a connection that reads and writes MIDI events.
pub struct LaunchpadPro<C> where C: Reader + Writer {
    pub connection: C,
    pub features: LaunchpadProFeatures,
}

impl<C> LaunchpadPro<C> where C: Reader + Writer {
    /// The Launchpad Pro behind `connection`.
    pub fn from(connection: C) -> (r: LaunchpadPro<C>)
        ensures
            r.connection == connection,
    {
        LaunchpadPro { connection, features: LaunchpadProFeatures::new() }
    }
}

impl<C> Reader for LaunchpadPro<C> where C: Reader + Writer {
    /// Reads through the connection; the features stay as they are.
    fn read_midi(&mut self) -> (r: Result<Option<[u8; 4]>, Error>)
        ensures
            final(self).features == old(self).features,
    {
        Reader::read_midi(&mut self.connection)
    }
}

impl<C> Writer for LaunchpadPro<C> where C: Reader + Writer {
    /// Writes through the connection; the features stay as they are.
    fn write_midi(&mut self, event: &[u8; 4]) -> (r: Result<(), Error>)
        ensures
            final(self).features == old(self).features,
    {
        Writer::write_midi(&mut self.connection, event)
    }

    /// Writes through the connection; the features stay as they are.
    fn write_sysex(&mut self, event: &[u8]) -> (r: Result<(), Error>)
        ensures
            final(self).features == old(self).features,
    {
        Writer::write_sysex(&mut self.connection, event)
    }
}

/// The features of the Launchpad Pro: an 8×8 grid of RGB pads, a column of buttons on the
/// right to select applications and a row of buttons at the bottom to select colors.
#[derive(Clone, Copy, Debug)]
pub struct LaunchpadProFeatures {}

impl LaunchpadProFeatures {
    pub fn new() -> LaunchpadProFeatures {
        LaunchpadProFeatures {  }
    }
}

impl crate::midi::features::Features for LaunchpadProFeatures {

}

} // verus!
