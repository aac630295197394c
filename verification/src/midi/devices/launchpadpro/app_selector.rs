use vstd::prelude::*;

use super::{as_usize, launchpad_app_index, launchpad_app_index_of, LaunchpadProFeatures};
use crate::midi::features::{is_sysex, AppSelector, FeatureError, R};
use crate::midi::grid::{lighting_frame, lighting_frame_of, right_led};
use crate::midi::{Error, Event};

verus! {

/// The Launchpad Pro selects applications with the column of buttons on the right: the top
/// button selects application 0, the bottom one application 7.
impl AppSelector for LaunchpadProFeatures {
    fn into_app_index(&self, event: Event) -> (r: R<Option<usize>>)
        ensures
            r == Ok::<Option<usize>, FeatureError>(as_usize(launchpad_app_index(event))),
    {
        match launchpad_app_index_of(&event) {
            Some(index) => Ok(Some(index as usize)),
            None => Ok(None),
        }
    }

    /// Lights the buttons of the right column, from the top, with the colors of the
    /// applications; at most eight applications fit.
    fn from_app_colors(&self, app_colors: Vec<[u8; 3]>) -> (r: R<Event>)
        ensures
            match r {
                Ok(event) => app_colors@.len() <= 8 && is_sysex(
                    event,
                    lighting_frame(app_colors@, |i: int| right_led(i)),
                ),
                Err(e) => app_colors@.len() > 8 && e == FeatureError::Midi(
                    Error::OutOfBoundIndexError,
                ),
            },
    {
        if app_colors.len() > 8 {
            return Err(FeatureError::Midi(Error::OutOfBoundIndexError));
        }
        Ok(Event::SysEx(lighting_frame_of(&app_colors, false)))
    }
}

} // verus!
