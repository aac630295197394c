use vstd::prelude::*;

use crate::image::Image;
use crate::midi::device::note_down;
use crate::midi::features::{
    default_app_index, default_index, is_unsupported, AppSelector, ColorPalette, FeatureError,
    Features, GridController, ImageRenderer, IndexSelector, UnsupportedFeatureError, R,
};
use crate::midi::{Event, IntoIndex};

verus! {

/// The features of a device without specific support.
#[derive(Clone, Copy, Debug)]
pub struct DefaultFeatures {}

impl DefaultFeatures {
    pub fn new() -> DefaultFeatures {
        DefaultFeatures {  }
    }
}

impl AppSelector for DefaultFeatures {
    /// Notes pressed down from the C-1/B-1 octave select the applications.
    fn into_app_index(&self, event: Event) -> (r: R<Option<usize>>)
        ensures
            r == Ok::<Option<usize>, FeatureError>(default_app_index(event)),
    {
        match crate::midi::device::pressed_with_status(&event, 144) {
            Some(note) => if note < 12 {
                Ok(Some(note as usize))
            } else {
                Ok(None)
            },
            None => Ok(None),
        }
    }

    fn from_app_colors(&self, app_colors: Vec<[u8; 3]>) -> (r: R<Event>)
        ensures
            is_unsupported(r),
    {
        Err(FeatureError::Unsupported(UnsupportedFeatureError::from("app-selector:from_app_colors")))
    }
}

impl ColorPalette for DefaultFeatures {
    fn into_color_palette_index(&self, event: Event) -> (r: R<Option<usize>>)
        ensures
            is_unsupported(r),
    {
        Err(FeatureError::Unsupported(UnsupportedFeatureError::from("color-palette:into_color_index")))
    }

    fn from_color_palette(&self, colors: Vec<[u8; 3]>) -> (r: R<Event>)
        ensures
            is_unsupported(r),
    {
        Err(FeatureError::Unsupported(UnsupportedFeatureError::from("color-palette:from_color_palette")))
    }
}

impl GridController for DefaultFeatures {
    fn get_grid_size(&self) -> (r: R<(usize, usize)>)
        ensures
            is_unsupported(r),
    {
        Err(FeatureError::Unsupported(UnsupportedFeatureError::from("grid-controller:get_grid_size")))
    }

    fn into_coordinates(&self, event: Event) -> (r: R<Option<(usize, usize)>>)
        ensures
            is_unsupported(r),
    {
        Err(FeatureError::Unsupported(UnsupportedFeatureError::from("grid-controller:into_coordinates")))
    }
}

impl ImageRenderer for DefaultFeatures {
    fn from_image(&self, image: Image) -> (r: R<Event>)
        ensures
            is_unsupported(r),
    {
        Err(FeatureError::Unsupported(UnsupportedFeatureError::from("image-renderer:from_image")))
    }
}

impl IndexSelector for DefaultFeatures {
    /// Notes pressed down from C2 upwards designate 0, 1, 2, …
    fn into_index(&self, event: Event) -> (r: R<Option<usize>>)
        ensures
            r == Ok::<Option<usize>, FeatureError>(default_index(event)),
    {
        match event {
            Event::Midi(m) => match m.into_index() {
                Ok(Some(i)) => Ok(Some(i as usize)),
                _ => Ok(None),
            },
            Event::SysEx(_) => Ok(None),
        }
    }

    fn from_index_to_highlight(&self, index: usize) -> (r: R<Event>)
        ensures
            is_unsupported(r),
    {
        Err(FeatureError::Unsupported(UnsupportedFeatureError::from("index-selector:from_index_to_highlight")))
    }
}

impl Features for DefaultFeatures {

}

} // verus!
