use vstd::prelude::*;

use super::LaunchpadProEvent;
use crate::midi::devices::launchpadpro::{
    as_u16, launchpad_app_index, launchpad_app_index_of, launchpad_index, launchpad_index_of,
};
use crate::midi::features::is_sysex;
use crate::midi::grid::{
    highlight_frame, highlight_frame_of, lighting_frame, lighting_frame_of, pad_code, right_led,
};
use crate::midi::{Error, Event, IntoAppIndex, IntoIndex};

verus! {

/// The central pads designate the indices 0 to 63, from the bottom-left corner, row after
/// row.
impl IntoIndex for LaunchpadProEvent {
    fn into_index(self) -> (r: Result<Option<u16>, Error>)
        ensures
            r == Ok::<Option<u16>, Error>(as_u16(launchpad_index(self.event))),
    {
        match launchpad_index_of(&self.event) {
            Some(index) => Ok(Some(index as u16)),
            None => Ok(None),
        }
    }
}

/// The column of buttons on the right selects the applications, from the top.
impl IntoAppIndex for LaunchpadProEvent {
    fn into_app_index(self) -> (r: Result<Option<u16>, Error>)
        ensures
            r == Ok::<Option<u16>, Error>(as_u16(launchpad_app_index(self.event))),
    {
        match launchpad_app_index_of(&self.event) {
            Some(index) => Ok(Some(index as u16)),
            None => Ok(None),
        }
    }
}

impl LaunchpadProEvent {
    /// The event that makes the pad of `index` blink.
    pub fn from_selected_index(index: u16) -> (r: Result<LaunchpadProEvent, Error>)
        ensures
            match r {
                Ok(e) => index <= 63 && is_sysex(e.event, highlight_frame(pad_code(index as int) as u8)),
                Err(e) => index > 63 && e == Error::OutOfBoundIndexError,
            },
    {
        if index > 63 {
            return Err(Error::OutOfBoundIndexError);
        }
        Ok(LaunchpadProEvent { event: Event::SysEx(highlight_frame_of(index as u8)) })
    }

    /// The event that lights the buttons of the right column, from the top, with the colors
    /// of the applications; at most eight fit.
    pub fn from_app_colors(app_colors: Vec<[u8; 3]>) -> (r: Result<LaunchpadProEvent, Error>)
        ensures
            match r {
                Ok(e) => app_colors@.len() <= 8 && is_sysex(
                    e.event,
                    lighting_frame(app_colors@, |i: int| right_led(i)),
                ),
                Err(e) => app_colors@.len() > 8 && e == Error::OutOfBoundIndexError,
            },
    {
        if app_colors.len() > 8 {
            return Err(Error::OutOfBoundIndexError);
        }
        Ok(LaunchpadProEvent { event: Event::SysEx(lighting_frame_of(&app_colors, false)) })
    }
}

} // verus!
