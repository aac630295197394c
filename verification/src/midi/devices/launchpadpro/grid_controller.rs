use vstd::prelude::*;

use super::{launchpad_coordinates, launchpad_coordinates_of, LaunchpadProFeatures};
use crate::midi::features::{FeatureError, GridController, R};
use crate::midi::Event;

verus! {

/// The coordinates of the central pad that `event` presses, as `usize`s.
pub open spec fn launchpad_coordinates_usize(event: Event) -> Option<(usize, usize)> {
    match launchpad_coordinates(event) {
        Some((x, y)) => Some((x as usize, y as usize)),
        None => None,
    }
}

/// The central 8×8 grid of pads of the Launchpad Pro.
impl GridController for LaunchpadProFeatures {
    fn get_grid_size(&self) -> (r: R<(usize, usize)>)
        ensures
            r == Ok::<(usize, usize), FeatureError>((8, 8)),
    {
        Ok((8, 8))
    }

    fn into_coordinates(&self, event: Event) -> (r: R<Option<(usize, usize)>>)
        ensures
            r == Ok::<Option<(usize, usize)>, FeatureError>(launchpad_coordinates_usize(event)),
    {
        match launchpad_coordinates_of(&event) {
            Some((x, y)) => Ok(Some((x as usize, y as usize))),
            None => Ok(None),
        }
    }
}

} // verus!
