//! Showing a picture of 64 pixels on the Launchpad Pro through any output port.
use vstd::prelude::*;

use crate::image::{bytes_of_pixels, Pixel};
use crate::midi::grid::{picture_frame, picture_frame_of, reverse_rows_of, reversed_rows};
use crate::midi::{Error, Writer};

verus! {

/// The frame that shows the 64 `pixels` on the grid, the first row of pixels on the top row
/// of pads; none for any other number of pixels.
pub open spec fn pixels_frame(pixels: Seq<Pixel>) -> Option<Seq<u8>> {
    if pixels.len() == 64 {
        Some(picture_frame(reversed_rows(bytes_of_pixels(pixels), 8, 8)))
    } else {
        None
    }
}

/// The frame that shows the 64 `pixels` on the grid, computed.
pub fn frame_of_pixels(pixels: &Vec<Pixel>) -> (r: Option<Vec<u8>>)
    ensures
        match pixels_frame(pixels@) {
            Some(frame) => r matches Some(v) && v@ == frame,
            None => r is None,
        },
{
    if pixels.len() != 64 {
        return None;
    }
    let mut bytes: Vec<u8> = Vec::with_capacity(192);
    let mut k: usize = 0;
    while k < 64
        invariant
            k <= 64,
            pixels@.len() == 64,
            bytes@ == bytes_of_pixels(pixels@.take(k as int)),
        decreases 64 - k,
    {
        let pixel = pixels[k];
        bytes.push(pixel.r);
        bytes.push(pixel.g);
        bytes.push(pixel.b);
        proof {
            assert(bytes@ =~= bytes_of_pixels(pixels@.take(k + 1)));
        }
        k = k + 1;
    }
    assert(pixels@.take(64) =~= pixels@);
    let reversed = reverse_rows_of(&bytes, 8, 8);
    Some(picture_frame_of(&reversed))
}

/// Shows the 64 `pixels` on the grid behind `output_port`. Any other number of pixels cannot
/// be shown: nothing is written then.
pub fn render_pixels<W: Writer>(output_port: &mut W, pixels: Vec<Pixel>) -> (r: Result<(), Error>)
    ensures
        pixels@.len() != 64 ==> r == Err::<(), Error>(Error::ImageRenderError),
{
    match frame_of_pixels(&pixels) {
        Some(frame) => output_port.write_sysex(frame.as_slice()),
        None => Err(Error::ImageRenderError),
    }
}

} // verus!
