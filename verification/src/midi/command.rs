use vstd::prelude::*;

use super::Error;
use crate::image::Image;

verus! {

/// A MIDI event that designates an index.
/// The default implementation follows the chromatic scale, starting from C2 (note 36), but
/// specific vendors can provide a more relevant one.
pub trait IntoIndex {
    fn into_index(self) -> Result<Option<u16>, Error>;
}

/// A MIDI event that designates an application.
pub trait IntoAppIndex {
    fn into_app_index(self) -> Result<Option<u16>, Error>;
}

/// A MIDI event that renders a picture.
pub trait FromImage<T> {
    fn from_image(image: Image) -> Result<T, Error>;
}

/// A MIDI event that renders a collection of pictures.
pub trait FromImages<T> {
    fn from_images(images: Vec<Image>) -> Result<T, Error>;
}

/// The chromatic index of a 4-byte message: notes pressed down (status 144, strictly positive
/// velocity) from C2 (note 36) upwards give 0, 1, 2, …
pub open spec fn chromatic_index(m: [u8; 4]) -> Option<u16> {
    if m@[0] == 144 && m@[1] >= 36 && m@[2] > 0 {
        Some((m@[1] - 36) as u16)
    } else {
        None
    }
}

/// Only notes pressed down designate an index: any other status (a note released, a control
/// change, …) designates none; a pressed note designates its distance from C2, so one
/// semitone up is one index up.
pub proof fn only_pressed_notes_designate_an_index(m: [u8; 4])
    ensures
        m@[0] != 144 ==> chromatic_index(m) is None,
        m@[2] == 0 ==> chromatic_index(m) is None,
        m@[1] < 36 ==> chromatic_index(m) is None,
        m@[0] == 144 && m@[1] >= 36 && m@[2] > 0 ==> (chromatic_index(m) matches Some(i) && i + 36
            == m@[1]),
{
}

impl IntoIndex for [u8; 4] {
    fn into_index(self) -> (r: Result<Option<u16>, Error>)
        ensures
            r == Ok::<Option<u16>, Error>(chromatic_index(self)),
    {
        if self[0] == 144 && self[1] >= 36 && self[2] > 0 {
            Ok(Some((self[1] - 36) as u16))
        } else {
            Ok(None)
        }
    }
}

} // verus!
