use vstd::prelude::*;

use super::LaunchpadProFeatures;
use crate::image::scale::{scale_error, scale_fits, scale_fits_for, scaled_bytes};
use crate::image::{scale, Image};
use crate::midi::features::{is_sysex, FeatureError, ImageRenderer, R};
use crate::midi::grid::{
    mirrored_index, picture_frame, picture_frame_of, reverse_rows_of, reversed_rows,
    reversing_rows_twice_is_identity,
};
use crate::midi::Event;

verus! {

/// The number of bytes of a 24-bit RGB picture of the whole central grid.
pub open spec fn grid_picture_size() -> usize {
    192
}

/// What rendering `image` on the central grid of the Launchpad Pro gives: the image shrunk to
/// 8×8, its rows put bottom first, as a picture frame.
pub open spec fn rendered_image(image: Image) -> R<Seq<u8>> {
    if !scale_fits(image.width, image.height, 8, 8) {
        Err(FeatureError::ImageTooLarge)
    } else {
        match scale_error(image.width, image.height, image.bytes@.len() as int, 8, 8) {
            Some(e) => Err(FeatureError::Scale(e)),
            None => Ok(
                picture_frame(
                    reversed_rows(
                        scaled_bytes(
                            image.width as int,
                            image.height as int,
                            image.bytes@,
                            8,
                            8,
                        ),
                        8,
                        8,
                    ),
                ),
            ),
        }
    }
}

/// Whether `r` is the event of the frame that `expected` describes, or the same error.
pub open spec fn renders(r: R<Event>, expected: R<Seq<u8>>) -> bool {
    match expected {
        Ok(bytes) => r matches Ok(event) && is_sysex(event, bytes),
        Err(e) => r == Err::<Event, FeatureError>(e),
    }
}

/// The error of a picture that does not have the size of the central grid.
pub open spec fn wrong_size(len: int) -> FeatureError {
    FeatureError::UnexpectedNumberOfBytes { actual_bytes: len as usize, expected_bytes: 192 }
}

impl ImageRenderer for LaunchpadProFeatures {
    /// Shrinks `image` to the size of the grid and lights the pads with it, the top row of the
    /// image on the top row of pads.
    fn from_image(&self, image: Image) -> (r: R<Event>)
        ensures
            renders(r, rendered_image(image)),
    {
        if !scale_fits_for(image.width, image.height, 8, 8) {
            return Err(FeatureError::ImageTooLarge);
        }
        let scaled = match scale(&image, 8, 8) {
            Ok(scaled) => scaled,
            Err(e) => return Err(FeatureError::Scale(e)),
        };
        proof {
            assert(3 * 8 * 8 == 192);
        }
        self.render_24bit_image_reversed(scaled.bytes)
    }
}

impl LaunchpadProFeatures {
    /// The number of bytes of a 24-bit RGB picture of the grid: three per pad.
    pub fn get_size(&self) -> (r: R<usize>)
        ensures
            r == Ok::<usize, FeatureError>(grid_picture_size()),
    {
        Ok(8 * 8 * 3)
    }

    /// Lights the pads with a 24-bit RGB picture whose first row is the top row: the device
    /// places its origin at the bottom-left corner, so the rows are put in the reverse order
    /// first.
    pub fn render_24bit_image_reversed(&self, bytes: Vec<u8>) -> (r: R<Event>)
        ensures
            bytes@.len() != 192 ==> r == Err::<Event, FeatureError>(wrong_size(bytes@.len() as int)),
            bytes@.len() == 192 ==> (r matches Ok(event) && is_sysex(
                event,
                picture_frame(reversed_rows(bytes@, 8, 8)),
            )),
    {
        let reversed = self.reverse_rows(bytes)?;
        self.render_24bit_image(reversed)
    }

    /// Lights the pads with a 24-bit RGB picture whose first row is the bottom row.
    pub fn render_24bit_image(&self, bytes: Vec<u8>) -> (r: R<Event>)
        ensures
            bytes@.len() != 192 ==> r == Err::<Event, FeatureError>(wrong_size(bytes@.len() as int)),
            bytes@.len() == 192 ==> (r matches Ok(event) && is_sysex(event, picture_frame(bytes@))),
    {
        let size = 8 * 8 * 3;
        if bytes.len() != size {
            return Err(
                FeatureError::UnexpectedNumberOfBytes {
                    actual_bytes: bytes.len(),
                    expected_bytes: size,
                },
            );
        }
        Ok(Event::SysEx(picture_frame_of(&bytes)))
    }

    /// The rows of a 24-bit RGB picture of the grid in the reverse order.
    pub fn reverse_rows(&self, bytes: Vec<u8>) -> (r: R<Vec<u8>>)
        ensures
            bytes@.len() != 192 ==> r == Err::<Vec<u8>, FeatureError>(wrong_size(bytes@.len() as int)),
            bytes@.len() == 192 ==> (r matches Ok(reversed) && reversed@ == reversed_rows(
                bytes@,
                8,
                8,
            )),
            r matches Ok(reversed) ==> reversed_rows(reversed@, 8, 8) == bytes@,
    {
        proof {
            if bytes@.len() == 192 {
                reverse_rows_is_its_own_inverse(bytes@);
            }
        }
        let size = 8 * 8 * 3;
        if bytes.len() != size {
            return Err(
                FeatureError::UnexpectedNumberOfBytes {
                    actual_bytes: bytes.len(),
                    expected_bytes: size,
                },
            );
        }
        Ok(reverse_rows_of(&bytes, 8, 8))
    }
}

/// The pixel at column `x` of row `y` of a grid picture with its rows reversed is the pixel at
/// column `x` of row `7 - y` of the picture, and reversing the rows twice gives the picture
/// back.
pub proof fn reverse_rows_is_its_own_inverse(bytes: Seq<u8>)
    requires
        bytes.len() == 192,
    ensures
        reversed_rows(bytes, 8, 8).len() == 192,
        forall|y: int, x: int, c: int|
            0 <= y < 8 && 0 <= x < 8 && 0 <= c < 3 ==> #[trigger] reversed_rows(bytes, 8, 8)[3 * (y * 8 + x) + c]
                == bytes[3 * ((7 - y) * 8 + x) + c],
        reversed_rows(reversed_rows(bytes, 8, 8), 8, 8) == bytes,
{
    reversing_rows_twice_is_identity(bytes, 8, 8);
    assert forall|y: int, x: int, c: int|
        0 <= y < 8 && 0 <= x < 8 && 0 <= c < 3 implies #[trigger] reversed_rows(bytes, 8, 8)[3 * (y * 8 + x) + c]
            == bytes[3 * ((7 - y) * 8 + x) + c] by {
        let i = 3 * (y * 8 + x) + c;
        assert(i / 24 == y && i % 24 == 3 * x + c) by (nonlinear_arith)
            requires
                i == 24 * y + 3 * x + c,
                0 <= y < 8,
                0 <= x < 8,
                0 <= c < 3,
        ;
        assert(mirrored_index(i, 8, 8) == 3 * ((7 - y) * 8 + x) + c);
    }
}

} // verus!
