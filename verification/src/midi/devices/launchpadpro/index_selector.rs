use vstd::prelude::*;

use super::{as_usize, launchpad_index, launchpad_index_of, LaunchpadProFeatures};
use crate::midi::features::{is_sysex, FeatureError, IndexSelector, R};
use crate::midi::grid::{highlight_frame, highlight_frame_of, pad_code};
use crate::midi::Event;

verus! {

/// The central pads of the Launchpad Pro designate the indices 0 to 63, from the bottom-left
/// corner, row after row.
impl IndexSelector for LaunchpadProFeatures {
    fn into_index(&self, event: Event) -> (r: R<Option<usize>>)
        ensures
            r == Ok::<Option<usize>, FeatureError>(as_usize(launchpad_index(event))),
    {
        match launchpad_index_of(&event) {
            Some(index) => Ok(Some(index as usize)),
            None => Ok(None),
        }
    }

    /// The event that makes the pad of `index` blink.
    fn from_index_to_highlight(&self, index: usize) -> (r: R<Event>)
        ensures
            match r {
                Ok(event) => index <= 63 && is_sysex(event, highlight_frame(pad_code(index as int) as u8)),
                Err(e) => index > 63 && e == FeatureError::IndexOutOfBound {
                    actual_value: index,
                    maximum_value: 63,
                },
            },
    {
        if index > 63 {
            return Err(FeatureError::IndexOutOfBound { actual_value: index, maximum_value: 63 });
        }
        Ok(Event::SysEx(highlight_frame_of(index as u8)))
    }
}

} // verus!
