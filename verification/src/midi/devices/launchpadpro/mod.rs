use vstd::prelude::*;

pub mod app_selector;
pub mod color_palette;
pub mod device;
pub mod grid_controller;
pub mod image_renderer;
pub mod index;
pub mod index_selector;

pub use device::{LaunchpadPro, LaunchpadProFeatures};

use crate::midi::device::{control_on, note_down};
use crate::midi::grid::{
    bottom_button_index, bottom_button_index_of, pad_code, pad_coordinates, pad_coordinates_of,
    pad_index, pad_index_of, right_button_index, right_button_index_of,
};
use crate::midi::Event;

verus! {

/// The index (0 to 63, from the bottom-left corner) of the central pad that `event` presses.
pub open spec fn launchpad_index(event: Event) -> Option<int> {
    match note_down(event) {
        Some(code) => pad_index(code as int),
        None => None,
    }
}

/// The coordinates (`(0, 0)` at the top-left corner) of the central pad that `event` presses.
pub open spec fn launchpad_coordinates(event: Event) -> Option<(int, int)> {
    match note_down(event) {
        Some(code) => pad_coordinates(code as int),
        None => None,
    }
}

/// The index (0 to 7, from the top) of the button of the right column that `event` presses.
pub open spec fn launchpad_app_index(event: Event) -> Option<int> {
    match control_on(event) {
        Some(code) => right_button_index(code as int),
        None => None,
    }
}

/// The index (0 to 7, from the left) of the button of the bottom row that `event` presses.
pub open spec fn launchpad_palette_index(event: Event) -> Option<int> {
    match control_on(event) {
        Some(code) => bottom_button_index(code as int),
        None => None,
    }
}

/// `o` as an optional `usize`.
pub open spec fn as_usize(o: Option<int>) -> Option<usize> {
    match o {
        Some(i) => Some(i as usize),
        None => None,
    }
}

/// `o` as an optional `u16`.
pub open spec fn as_u16(o: Option<int>) -> Option<u16> {
    match o {
        Some(i) => Some(i as u16),
        None => None,
    }
}

/// The pad index of `event`, computed.
pub fn launchpad_index_of(event: &Event) -> (r: Option<u8>)
    ensures
        match launchpad_index(*event) {
            Some(i) => r == Some(i as u8),
            None => r is None,
        },
        r matches Some(i) ==> i < 64,
{
    match crate::midi::device::pressed_with_status(event, 144) {
        Some(code) => pad_index_of(code),
        None => None,
    }
}

/// The right-column index of `event`, computed.
pub fn launchpad_app_index_of(event: &Event) -> (r: Option<u8>)
    ensures
        match launchpad_app_index(*event) {
            Some(i) => r == Some(i as u8),
            None => r is None,
        },
        r matches Some(i) ==> i < 8,
{
    match crate::midi::device::pressed_with_status(event, 176) {
        Some(code) => right_button_index_of(code),
        None => None,
    }
}

/// The bottom-row index of `event`, computed.
pub fn launchpad_palette_index_of(event: &Event) -> (r: Option<u8>)
    ensures
        match launchpad_palette_index(*event) {
            Some(i) => r == Some(i as u8),
            None => r is None,
        },
        r matches Some(i) ==> i < 8,
{
    match crate::midi::device::pressed_with_status(event, 176) {
        Some(code) => bottom_button_index_of(code),
        None => None,
    }
}

/// The pad coordinates of `event`, computed.
pub fn launchpad_coordinates_of(event: &Event) -> (r: Option<(u8, u8)>)
    ensures
        match launchpad_coordinates(*event) {
            Some((x, y)) => r == Some((x as u8, y as u8)),
            None => r is None,
        },
        r matches Some((x, y)) ==> x < 8 && y < 8,
{
    match crate::midi::device::pressed_with_status(event, 144) {
        Some(code) => pad_coordinates_of(code),
        None => None,
    }
}

/// The index of the pad that an event designates and the pad that the highlighting of that
/// index lights are the same pad: the highlighting frame names the code of the pressed pad.
pub proof fn highlighting_the_pressed_pad(event: Event)
    requires
        launchpad_index(event) is Some,
    ensures
        0 <= launchpad_index(event).unwrap() < 64,
        note_down(event) == Some(pad_code(launchpad_index(event).unwrap()) as u8),
{
    let code = note_down(event).unwrap() as int;
    let row = code / 10;
    let column = code % 10;
    vstd::arithmetic::div_mod::lemma_fundamental_div_mod(code, 10);
    let index = (row - 1) * 8 + (column - 1);
    vstd::arithmetic::div_mod::lemma_fundamental_div_mod_converse(index, 8, row - 1, column - 1);
}


/// Only a pressed pad of the grid designates a pad, and only a pressed button of the right
/// column or of the bottom row an application or a color: each pad `i` (0 to 63, from the
/// bottom-left corner, row after row) is designated by the note of its code, the right
/// buttons from the top give the applications 0 to 7, and the bottom buttons from the left
/// give the colors 0 to 7.
pub proof fn buttons_designate_what_they_are_for(event: Event, i: int, velocity: u8, extra: u8)
    ensures
        !(event matches Event::Midi(m) && m@[0] == 144) ==> launchpad_index(event) is None,
        !(event matches Event::Midi(m) && m@[0] == 176) ==> launchpad_app_index(event) is None
            && launchpad_palette_index(event) is None,
        launchpad_index(event) matches Some(k) ==> 0 <= k < 64,
        launchpad_app_index(event) matches Some(k) ==> 0 <= k < 8,
        launchpad_palette_index(event) matches Some(k) ==> 0 <= k < 8,
        0 <= i < 64 && velocity > 0 ==> launchpad_index(
            Event::Midi([144u8, ((i / 8 + 1) * 10 + i % 8 + 1) as u8, velocity, extra]),
        ) == Some(i),
        0 <= i < 8 && velocity > 0 ==> launchpad_app_index(
            Event::Midi([176u8, ((8 - i) * 10 + 9) as u8, velocity, extra]),
        ) == Some(i),
        0 <= i < 8 && velocity > 0 ==> launchpad_palette_index(
            Event::Midi([176u8, (i + 1) as u8, velocity, extra]),
        ) == Some(i),
        launchpad_index(Event::Midi([144u8, 11, 0, extra])) is None,
{
    if 0 <= i < 64 {
        let row = i / 8 + 1;
        let column = i % 8 + 1;
        let code = row * 10 + column;
        vstd::arithmetic::div_mod::lemma_fundamental_div_mod_converse(code, 10, row, column);
        vstd::arithmetic::div_mod::lemma_fundamental_div_mod(i, 8);
        assert(([144u8, code as u8, velocity, extra])@[1] == code as u8);
    }
    if 0 <= i < 8 {
        let code = (8 - i) * 10 + 9;
        vstd::arithmetic::div_mod::lemma_fundamental_div_mod_converse(code, 10, 8 - i, 9);
        assert(([176u8, code as u8, velocity, extra])@[1] == code as u8);
        assert(([176u8, (i + 1) as u8, velocity, extra])@[1] == (i + 1) as u8);
    }
    if let Event::Midi(m) = event {
        if m@[0] == 144 {
            if let Some(k) = launchpad_index(event) {
                highlighting_the_pressed_pad(event);
            }
        }
    }
}

} // verus!
