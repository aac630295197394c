use vstd::prelude::*;

use super::{Error, Event};
use crate::image::{scale, Image};

verus! {

/// A feature that the device does not offer.
#[derive(Clone, Copy, Debug, PartialEq)]
pub struct UnsupportedFeatureError {
    name: &'static str,
}

impl UnsupportedFeatureError {
    /// The error for the feature called `name`.
    pub fn from(name: &'static str) -> (e: UnsupportedFeatureError)
        ensures
            e.name() == name,
    {
        UnsupportedFeatureError { name }
    }

    pub closed spec fn name(&self) -> &'static str {
        self.name
    }

    /// The name of the missing feature.
    pub fn feature_name(&self) -> (name: &'static str)
        ensures
            name == self.name(),
    {
        self.name
    }
}

/// What can go wrong when a device feature transforms an event or an image.
#[derive(Clone, Copy, Debug, PartialEq)]
pub enum FeatureError {
    Unsupported(UnsupportedFeatureError),
    Midi(Error),
    Scale(scale::Error),
    UnexpectedNumberOfBytes { actual_bytes: usize, expected_bytes: usize },
    IndexOutOfBound { actual_value: usize, maximum_value: usize },
    /// The picture is too large for the arithmetic of the scaling to fit in a `usize`.
    ImageTooLarge,
}

pub type R<A> = Result<A, FeatureError>;

/// A device that provides a UI to switch between applications.
pub trait AppSelector {
    /// Converts a MIDI event into the index of the application it selects.
    fn into_app_index(&self, event: Event) -> R<Option<usize>>;

    /// The event that lights the "app-selection" elements of the device with the given
    /// colors.
    fn from_app_colors(&self, app_colors: Vec<[u8; 3]>) -> R<Event>;
}

/// A device that provides a UI to select a color from a palette.
pub trait ColorPalette {
    /// Converts a MIDI event into the index of the color it selects.
    fn into_color_palette_index(&self, event: Event) -> R<Option<usize>>;

    /// The event that lights the "color-palette" elements of the device with the given
    /// colors.
    fn from_color_palette(&self, colors: Vec<[u8; 3]>) -> R<Event>;
}

/// A device with pads arranged on a grid.
pub trait GridController {
    /// The size of the grid, width first.
    fn get_grid_size(&self) -> R<(usize, usize)>;

    /// The coordinates (x first) of the pad that an event designates, `(0, 0)` being the
    /// top-left corner of the grid.
    fn into_coordinates(&self, event: Event) -> R<Option<(usize, usize)>>;
}

/// A grid controller that can light its pads with enough colors to render a (small) image.
pub trait ImageRenderer: GridController {
    fn from_image(&self, image: Image) -> R<Event>;
}

/// A device whose pads designate indices, and that can highlight the pad of an index.
pub trait IndexSelector {
    fn into_index(&self, event: Event) -> R<Option<usize>>;

    fn from_index_to_highlight(&self, index: usize) -> R<Event>;
}

/// All the features a device may offer.
pub trait Features: AppSelector + ColorPalette + GridController + ImageRenderer + IndexSelector {

}

/// Whether `event` is a System Exclusive message made of `bytes`.
pub open spec fn is_sysex(event: Event, bytes: Seq<u8>) -> bool {
    event matches Event::SysEx(b) && b@ == bytes
}

/// The application index of a device without specific support: notes pressed down from the
/// C-1/B-1 octave (0 to 11).
pub open spec fn default_app_index(event: Event) -> Option<usize> {
    match super::device::note_down(event) {
        Some(note) => if note < 12 {
            Some(note as usize)
        } else {
            None
        },
        None => None,
    }
}

/// The index of a device without specific support: the chromatic index from C2.
pub open spec fn default_index(event: Event) -> Option<usize> {
    match event {
        Event::Midi(m) => match super::command::chromatic_index(m) {
            Some(i) => Some(i as usize),
            None => None,
        },
        Event::SysEx(_) => None,
    }
}

/// Whether `r` is the error of a feature that the device does not offer.
pub open spec fn is_unsupported<A>(r: R<A>) -> bool {
    r matches Err(FeatureError::Unsupported(_))
}

} // verus!
