use vstd::prelude::*;

use super::{
    as_u16, launchpad_index, launchpad_index_of, launchpad_palette_index, launchpad_palette_index_of,
};
use crate::midi::features::is_sysex;
use crate::midi::grid::{
    bottom_led, highlight_frame, highlight_frame_of, lighting_frame, lighting_frame_of, pad_code,
};
use crate::midi::{Error, Event};

verus! {

/// The index (0 to 63, from the bottom-left corner) of the central pad that `event` presses.
pub fn into_index(event: Event) -> (r: Result<Option<u16>, Error>)
    ensures
        r == Ok::<Option<u16>, Error>(as_u16(launchpad_index(event))),
{
    match launchpad_index_of(&event) {
        Some(index) => Ok(Some(index as u16)),
        None => Ok(None),
    }
}

/// The index (0 to 7, from the left) of the button of the bottom row that `event` presses.
pub fn into_color_palette_index(event: Event) -> (r: Result<Option<u16>, Error>)
    ensures
        r == Ok::<Option<u16>, Error>(as_u16(launchpad_palette_index(event))),
{
    match launchpad_palette_index_of(&event) {
        Some(index) => Ok(Some(index as u16)),
        None => Ok(None),
    }
}

/// The event that makes the pad of `index` blink.
pub fn from_index_to_highlight(index: u16) -> (r: Result<Event, Error>)
    ensures
        match r {
            Ok(event) => index <= 63 && is_sysex(event, highlight_frame(pad_code(index as int) as u8)),
            Err(e) => index > 63 && e == Error::OutOfBoundIndexError,
        },
{
    if index > 63 {
        return Err(Error::OutOfBoundIndexError);
    }
    Ok(Event::SysEx(highlight_frame_of(index as u8)))
}

/// The event that lights the buttons of the bottom row with the colors of the palette; at
/// most eight colors fit.
pub fn from_color_palette(color_palette: Vec<[u8; 3]>) -> (r: Result<Event, Error>)
    ensures
        match r {
            Ok(event) => color_palette@.len() <= 8 && is_sysex(
                event,
                lighting_frame(color_palette@, |i: int| bottom_led(i)),
            ),
            Err(e) => color_palette@.len() > 8 && e == Error::OutOfBoundIndexError,
        },
{
    if color_palette.len() > 8 {
        return Err(Error::OutOfBoundIndexError);
    }
    Ok(Event::SysEx(lighting_frame_of(&color_palette, true)))
}

} // verus!
