use vstd::prelude::*;

use super::{as_usize, launchpad_palette_index, launchpad_palette_index_of, LaunchpadProFeatures};
use crate::midi::features::{is_sysex, ColorPalette, FeatureError, R};
use crate::midi::grid::{bottom_led, lighting_frame, lighting_frame_of};
use crate::midi::{Error, Event};

verus! {

/// The Launchpad Pro selects colors with the row of buttons at the bottom: the leftmost
/// button selects color 0, the rightmost one color 7.
impl ColorPalette for LaunchpadProFeatures {
    fn into_color_palette_index(&self, event: Event) -> (r: R<Option<usize>>)
        ensures
            r == Ok::<Option<usize>, FeatureError>(as_usize(launchpad_palette_index(event))),
    {
        match launchpad_palette_index_of(&event) {
            Some(index) => Ok(Some(index as usize)),
            None => Ok(None),
        }
    }

    /// Lights the buttons of the bottom row, from the left, with the colors; at most eight
    /// colors fit.
    fn from_color_palette(&self, colors: Vec<[u8; 3]>) -> (r: R<Event>)
        ensures
            match r {
                Ok(event) => colors@.len() <= 8 && is_sysex(
                    event,
                    lighting_frame(colors@, |i: int| bottom_led(i)),
                ),
                Err(e) => colors@.len() > 8 && e == FeatureError::Midi(Error::OutOfBoundIndexError),
            },
    {
        if colors.len() > 8 {
            return Err(FeatureError::Midi(Error::OutOfBoundIndexError));
        }
        Ok(Event::SysEx(lighting_frame_of(&colors, true)))
    }
}

} // verus!
