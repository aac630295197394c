use midi_hub::image::scale::Error as ScaleError;
use midi_hub::image::{compress_1x1, compress_8x8, compress_from_jpeg, CompressError, Error, Image, Pixel};

/// A 16×16 RGB JPEG picture.
const PICTURE: [u8; 543] = [
    255, 216, 255, 224, 0, 16, 74, 70, 73, 70, 0, 1, 1, 1, 0, 1,
    0, 1, 0, 0, 255, 219, 0, 67, 0, 3, 2, 2, 2, 2, 2, 3,
    2, 2, 2, 3, 3, 3, 3, 4, 6, 4, 4, 4, 4, 4, 8, 6,
    6, 5, 6, 9, 8, 10, 10, 9, 8, 9, 9, 10, 12, 15, 12, 10,
    11, 14, 11, 9, 9, 13, 17, 13, 14, 15, 16, 16, 17, 16, 10, 12,
    18, 19, 18, 16, 19, 15, 16, 16, 16, 255, 219, 0, 67, 1, 3, 3,
    3, 4, 3, 4, 8, 4, 4, 8, 16, 11, 9, 11, 16, 16, 16, 16,
    16, 16, 16, 16, 16, 16, 16, 16, 16, 16, 16, 16, 16, 16, 16, 16,
    16, 16, 16, 16, 16, 16, 16, 16, 16, 16, 16, 16, 16, 16, 16, 16,
    16, 16, 16, 16, 16, 16, 16, 16, 16, 16, 16, 16, 16, 16, 255, 192,
    0, 17, 8, 0, 16, 0, 16, 3, 1, 34, 0, 2, 17, 1, 3, 17,
    1, 255, 196, 0, 22, 0, 1, 1, 1, 0, 0, 0, 0, 0, 0, 0,
    0, 0, 0, 0, 0, 0, 7, 4, 5, 255, 196, 0, 36, 16, 0, 1,
    4, 1, 4, 2, 2, 3, 0, 0, 0, 0, 0, 0, 0, 0, 1, 2,
    3, 4, 6, 5, 7, 8, 18, 19, 17, 34, 0, 20, 9, 49, 50, 255,
    196, 0, 21, 1, 1, 1, 0, 0, 0, 0, 0, 0, 0, 0, 0, 0,
    0, 0, 0, 0, 0, 6, 255, 196, 0, 35, 17, 0, 1, 2, 5, 3,
    5, 0, 0, 0, 0, 0, 0, 0, 0, 0, 0, 1, 2, 17, 3, 4,
    5, 6, 33, 0, 18, 49, 21, 22, 97, 129, 225, 255, 218, 0, 12, 3,
    1, 0, 2, 17, 3, 17, 0, 63, 0, 20, 166, 210, 106, 27, 115, 193,
    230, 19, 18, 212, 149, 28, 243, 17, 99, 228, 37, 101, 190, 186, 90, 236,
    105, 69, 64, 177, 229, 32, 178, 84, 165, 31, 210, 202, 184, 250, 242, 32,
    171, 150, 61, 151, 108, 147, 53, 230, 155, 119, 215, 230, 109, 167, 23, 129,
    165, 87, 28, 127, 28, 234, 113, 226, 75, 57, 215, 227, 34, 83, 242, 26,
    105, 222, 212, 113, 74, 56, 180, 130, 232, 75, 137, 42, 113, 105, 30, 205,
    45, 33, 59, 241, 239, 185, 26, 116, 172, 238, 161, 90, 117, 142, 213, 72,
    172, 101, 91, 133, 139, 129, 133, 123, 33, 41, 152, 103, 169, 107, 148, 185,
    73, 101, 79, 185, 200, 133, 41, 17, 75, 129, 42, 240, 122, 217, 242, 60,
    128, 126, 85, 190, 13, 246, 98, 161, 64, 204, 232, 230, 154, 61, 92, 183,
    67, 179, 215, 122, 101, 88, 177, 217, 81, 33, 136, 191, 100, 184, 211, 241,
    195, 104, 4, 41, 192, 208, 254, 187, 60, 2, 224, 60, 84, 7, 180, 189,
    217, 123, 84, 230, 39, 251, 110, 223, 148, 96, 20, 130, 98, 19, 141, 184,
    82, 152, 40, 55, 5, 137, 114, 121, 96, 228, 50, 137, 111, 195, 130, 142,
    167, 82, 140, 234, 32, 141, 190, 120, 25, 31, 7, 173, 127, 255, 217,
];

#[test]
fn a_jpeg_picture_is_decoded_into_rgb_bytes() {
    let image = Image::from_jpeg(&PICTURE).unwrap();
    assert_eq!((image.width, image.height), (16, 16));
    assert_eq!(image.bytes.len(), 16 * 16 * 3);
    assert!(image.bytes.iter().any(|b| *b != 0));
}

#[test]
fn bytes_that_are_no_jpeg_picture_are_refused() {
    assert_eq!(Image::from_jpeg(&[1, 2, 3, 4]), Err(Error::JpegDecodingError));
    assert_eq!(Image::from_jpeg(&PICTURE[..100]), Err(Error::JpegDecodingError));
}

#[test]
fn compressing_a_picture_hands_its_pixels_to_the_algorithm() {
    // the picture is 16×16, not 64×64: the compression reports it
    let r = compress_from_jpeg(&PICTURE, compress_1x1);
    assert_eq!(r, Err(CompressError::Scale(ScaleError::InvalidImage(12288, 768))));
    let r = compress_from_jpeg(&[0, 1, 2], compress_8x8);
    match r {
        Err(CompressError::Decoding(description)) => {
            assert_eq!(description, "Format(\"first two bytes are not an SOI marker\")")
        },
        other => panic!("expected a decoding error, got {:?}", other),
    }
}

#[test]
fn compressing_pixels_averages_them() {
    let pixels = vec![
        Pixel { r: 10, g: 0, b: 0 },
        Pixel { r: 30, g: 4, b: 0 },
        Pixel { r: 50, g: 8, b: 1 },
        Pixel { r: 70, g: 12, b: 2 },
    ];
    assert_eq!(compress_1x1(2, 2, pixels.clone()), Ok(Pixel { r: 40, g: 6, b: 0 }));
    assert_eq!(compress_8x8(2, 2, pixels), Err(CompressError::Scale(ScaleError::InvalidScaleForImage(8, 8, 2, 2))));
    let big = vec![Pixel { r: 8, g: 16, b: 24 }; 16 * 16];
    assert_eq!(compress_8x8(16, 16, big), Ok(vec![Pixel { r: 8, g: 16, b: 24 }; 64]));
}


#[test]
fn the_pixels_of_an_image_made_of_pixels_are_those_pixels() {
    let pixels: Vec<Pixel> = (0..6u8).map(|i| Pixel { r: i, g: 2 * i, b: 255 - i }).collect();
    let image = Image::from(3, 2, pixels.clone());
    assert_eq!(image.bytes.len(), 18);
    assert_eq!(midi_hub::image::pixels_of_image(image), pixels);
    assert_eq!(midi_hub::image::group_pixels(&vec![1, 2, 3, 4, 5]), vec![Pixel { r: 1, g: 2, b: 3 }]);
}
