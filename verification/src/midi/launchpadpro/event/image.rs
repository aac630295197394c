use vstd::prelude::*;

use super::LaunchpadProEvent;
use crate::image::scale::{scale_error, scale_fits, scale_fits_for, scaled_bytes};
use crate::image::{scale, Image};
use crate::midi::features::is_sysex;
use crate::midi::grid::{picture_frame, picture_frame_of, reverse_rows_of, reversed_rows};
use crate::midi::{Error, Event, FromImage, FromImages};

verus! {

/// The frame that shows `image` on the 8×8 central grid: the image shrunk to 8×8, its top row
/// on the top row of pads.
pub open spec fn image_frame(image: Image) -> Result<Seq<u8>, Error> {
    if scale_fits(image.width, image.height, 8, 8) && scale_error(
        image.width,
        image.height,
        image.bytes@.len() as int,
        8,
        8,
    ) is None {
        Ok(
            picture_frame(
                reversed_rows(
                    scaled_bytes(image.width as int, image.height as int, image.bytes@, 8, 8),
                    8,
                    8,
                ),
            ),
        )
    } else {
        Err(Error::ImageRenderError)
    }
}

/// The color that a pad takes to stand for `image`: the average of the image, or black when
/// the image cannot be shrunk.
pub open spec fn pad_pixel(image: Image) -> Seq<u8> {
    if scale_fits(image.width, image.height, 1, 1) && scale_error(
        image.width,
        image.height,
        image.bytes@.len() as int,
        1,
        1,
    ) is None {
        scaled_bytes(image.width as int, image.height as int, image.bytes@, 1, 1)
    } else {
        seq![0u8, 0, 0]
    }
}

/// The bytes of a picture with one pixel per image.
pub open spec fn mosaic(images: Seq<Image>) -> Seq<u8>
    decreases images.len(),
{
    if images.len() == 0 {
        Seq::empty()
    } else {
        mosaic(images.drop_last()) + pad_pixel(images.last())
    }
}

/// The frame that renders `images`: a single image over the whole grid, or 64 images, one per
/// pad, the first on the bottom-left pad.
pub open spec fn images_frame(images: Seq<Image>) -> Result<Seq<u8>, Error> {
    if images.len() == 1 {
        image_frame(images[0])
    } else if images.len() == 64 {
        Ok(picture_frame(mosaic(images)))
    } else {
        Err(Error::ImageRenderError)
    }
}

/// Whether `r` is the event of the frame that `expected` describes, or the same error.
pub open spec fn frames(r: Result<LaunchpadProEvent, Error>, expected: Result<Seq<u8>, Error>) -> bool {
    match expected {
        Ok(bytes) => r matches Ok(e) && is_sysex(e.event, bytes),
        Err(e) => r == Err::<LaunchpadProEvent, Error>(e),
    }
}

proof fn lemma_mosaic_len(images: Seq<Image>)
    ensures
        mosaic(images).len() == 3 * images.len(),
    decreases images.len(),
{
    if images.len() > 0 {
        lemma_mosaic_len(images.drop_last());
    }
}

impl FromImage<LaunchpadProEvent> for LaunchpadProEvent {
    fn from_image(image: Image) -> (r: Result<LaunchpadProEvent, Error>)
        ensures
            frames(r, image_frame(image)),
    {
        render_one_image(&image)
    }
}

impl FromImages<LaunchpadProEvent> for LaunchpadProEvent {
    fn from_images(images: Vec<Image>) -> (r: Result<LaunchpadProEvent, Error>)
        ensures
            frames(r, images_frame(images@)),
    {
        if images.len() == 1 {
            render_one_image(&images[0])
        } else if images.len() == 64 {
            render_one_image_per_pad(&images)
        } else {
            Err(Error::ImageRenderError)
        }
    }
}

/// Shows `image` over the whole grid.
pub fn render_one_image(image: &Image) -> (r: Result<LaunchpadProEvent, Error>)
    ensures
        frames(r, image_frame(*image)),
{
    if !scale_fits_for(image.width, image.height, 8, 8) {
        return Err(Error::ImageRenderError);
    }
    match scale(image, 8, 8) {
        Ok(scaled) => {
            assert(scaled.bytes@.len() == 192);
            render_24bit_image_reversed(scaled.bytes)
        },
        Err(_) => Err(Error::ImageRenderError),
    }
}

/// The pixel that stands for `image` on a pad.
fn pad_pixel_of(image: &Image) -> (r: Vec<u8>)
    ensures
        r@ == pad_pixel(*image),
{
    if scale_fits_for(image.width, image.height, 1, 1) {
        if let Ok(scaled) = scale(image, 1, 1) {
            return scaled.bytes;
        }
    }
    vec![0u8, 0, 0]
}

/// Shows each of the 64 `images` on a pad, the first on the bottom-left pad.
pub fn render_one_image_per_pad(images: &Vec<Image>) -> (r: Result<LaunchpadProEvent, Error>)
    ensures
        frames(r, if images@.len() == 64 {
            Ok(picture_frame(mosaic(images@)))
        } else {
            Err(Error::ImageRenderError)
        }),
{
    if images.len() != 64 {
        return Err(Error::ImageRenderError);
    }
    let mut bytes: Vec<u8> = Vec::with_capacity(192);
    let mut k: usize = 0;
    while k < images.len()
        invariant
            k <= images@.len(),
            images@.len() == 64,
            bytes@ == mosaic(images@.take(k as int)),
        decreases images@.len() - k,
    {
        let pixel = pad_pixel_of(&images[k]);
        proof {
            lemma_mosaic_len(images@.take(k as int));
            assert(pixel@.len() == 3);
        }
        bytes.push(pixel[0]);
        bytes.push(pixel[1]);
        bytes.push(pixel[2]);
        proof {
            assert(images@.take(k + 1).drop_last() =~= images@.take(k as int));
            assert(bytes@ =~= mosaic(images@.take(k + 1)));
        }
        k = k + 1;
    }
    proof {
        assert(images@.take(64) =~= images@);
        lemma_mosaic_len(images@);
    }
    render_24bit_image(bytes)
}

/// Shows a 24-bit RGB picture whose first row is the top row: the device places its origin at
/// the bottom-left corner, so the rows are put in the reverse order first.
pub fn render_24bit_image_reversed(bytes: Vec<u8>) -> (r: Result<LaunchpadProEvent, Error>)
    ensures
        frames(r, if bytes@.len() == 192 {
            Ok(picture_frame(reversed_rows(bytes@, 8, 8)))
        } else {
            Err(Error::ImageRenderError)
        }),
{
    let reversed = reverse_rows(bytes)?;
    render_24bit_image(reversed)
}

/// Shows a 24-bit RGB picture whose first row is the bottom row.
pub fn render_24bit_image(bytes: Vec<u8>) -> (r: Result<LaunchpadProEvent, Error>)
    ensures
        frames(r, if bytes@.len() == 192 {
            Ok(picture_frame(bytes@))
        } else {
            Err(Error::ImageRenderError)
        }),
{
    if bytes.len() != 192 {
        return Err(Error::ImageRenderError);
    }
    Ok(LaunchpadProEvent { event: Event::SysEx(picture_frame_of(&bytes)) })
}

/// The rows of a 24-bit RGB picture of the 8×8 grid in the reverse order.
pub fn reverse_rows(bytes: Vec<u8>) -> (r: Result<Vec<u8>, Error>)
    ensures
        bytes@.len() != 192 ==> r == Err::<Vec<u8>, Error>(Error::ImageRenderError),
        bytes@.len() == 192 ==> (r matches Ok(reversed) && reversed@ == reversed_rows(bytes@, 8, 8)),
{
    if bytes.len() != 192 {
        return Err(Error::ImageRenderError);
    }
    Ok(reverse_rows_of(&bytes, 8, 8))
}

} // verus!
