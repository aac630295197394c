use vstd::prelude::*;

pub mod scale;

pub use scale::scale;

verus! {

/// An RGB image: three bytes (red, green, blue) per pixel, row after row.
#[derive(Clone, Debug, PartialEq)]
pub struct Image {
    pub width: usize,
    pub height: usize,
    pub bytes: Vec<u8>,
}

/// One RGB pixel.
#[derive(Copy, Clone, Debug, PartialEq)]
pub struct Pixel {
    pub r: u8,
    pub g: u8,
    pub b: u8,
}

/// Why a picture could not be turned into an [`Image`].
#[derive(Copy, Clone, Debug, PartialEq)]
pub enum Error {
    FileOpenError,
    HttpRequestError,
    HttpParseError,
    JpegDecodingError,
    JpegInfoError,
    JpegPixelFormatError,
}

/// Why a picture could not be compressed.
#[derive(Clone, Debug, PartialEq)]
pub enum CompressError {
    /// The bytes are not a JPEG picture that can be decoded; the decoder's description of
    /// why.
    Decoding(String),
    /// The decoded picture could not be scaled.
    Scale(scale::Error),
}

/// Channel `c` (0: red, 1: green, 2: blue) of a pixel.
pub open spec fn channel(pixel: Pixel, c: int) -> u8 {
    if c == 0 {
        pixel.r
    } else if c == 1 {
        pixel.g
    } else {
        pixel.b
    }
}

/// The bytes of a sequence of pixels, three per pixel.
pub open spec fn bytes_of_pixels(pixels: Seq<Pixel>) -> Seq<u8> {
    Seq::new(3 * pixels.len(), |i: int| channel(pixels[i / 3], i % 3))
}

/// The pixels of a sequence of bytes, three bytes per pixel; trailing bytes that do not make
/// a whole pixel are left out.
pub open spec fn pixels_of_bytes(bytes: Seq<u8>) -> Seq<Pixel> {
    Seq::new(
        bytes.len() / 3,
        |k: int| Pixel { r: bytes[3 * k], g: bytes[3 * k + 1], b: bytes[3 * k + 2] },
    )
}

/// Grouping the bytes of pixels three by three gives the pixels back.
pub proof fn grouping_the_bytes_of_pixels_gives_them_back(pixels: Seq<Pixel>)
    ensures
        pixels_of_bytes(bytes_of_pixels(pixels)) == pixels,
{
    let bytes = bytes_of_pixels(pixels);
    assert forall|k: int| 0 <= k < pixels.len() implies #[trigger] pixels_of_bytes(bytes)[k] == pixels[k] by {
        assert((3 * k) / 3 == k && (3 * k) % 3 == 0);
        assert((3 * k + 1) / 3 == k && (3 * k + 1) % 3 == 1);
        assert((3 * k + 2) / 3 == k && (3 * k + 2) % 3 == 2);
    }
    assert(pixels_of_bytes(bytes) =~= pixels);
}

impl Image {
    /// The image of the given size made of the given pixels.
    pub fn from(width: u16, height: u16, pixels: Vec<Pixel>) -> (image: Image)
        requires
            3 * pixels@.len() <= usize::MAX,
        ensures
            image.width == width,
            image.height == height,
            image.bytes@ == bytes_of_pixels(pixels@),
    {
        let mut bytes: Vec<u8> = Vec::with_capacity(pixels.len() * 3);
        let mut k: usize = 0;
        while k < pixels.len()
            invariant
                k <= pixels@.len(),
                3 * pixels@.len() <= usize::MAX,
                bytes@ == bytes_of_pixels(pixels@.take(k as int)),
            decreases pixels@.len() - k,
        {
            let pixel = pixels[k];
            bytes.push(pixel.r);
            bytes.push(pixel.g);
            bytes.push(pixel.b);
            proof {
                assert(bytes@ =~= bytes_of_pixels(pixels@.take(k + 1)));
            }
            k = k + 1;
        }
        assert(pixels@.take(pixels@.len() as int) =~= pixels@);
        Image { width: width as usize, height: height as usize, bytes }
    }
}

impl Image {
    /// A copy of this image.
    pub fn duplicate(&self) -> (r: Image)
        ensures
            r.width == self.width,
            r.height == self.height,
            r.bytes@ == self.bytes@,
    {
        Image { width: self.width, height: self.height, bytes: self.bytes.clone() }
    }
}

/// The pixels of an image, three bytes per pixel.
pub fn pixels_of_image(image: Image) -> (pixels: Vec<Pixel>)
    ensures
        pixels@ == pixels_of_bytes(image.bytes@),
{
    group_pixels(&image.bytes)
}

/// Groups bytes three by three into pixels; a trailing incomplete pixel is dropped.
pub fn group_pixels(bytes: &Vec<u8>) -> (pixels: Vec<Pixel>)
    ensures
        pixels@ == pixels_of_bytes(bytes@),
{
    let mut pixels: Vec<Pixel> = Vec::new();
    let mut pixel = Pixel { r: 0, g: 0, b: 0 };
    let mut n: usize = 0;
    while n < bytes.len()
        invariant
            n <= bytes@.len(),
            pixels@ == pixels_of_bytes(bytes@.take(n as int)),
            n % 3 >= 1 ==> pixel.r == bytes@[n - n % 3],
            n % 3 == 2 ==> pixel.g == bytes@[n - 1],
        decreases bytes@.len() - n,
    {
        let ghost before = pixels@;
        if n % 3 == 0 {
            pixel.r = bytes[n];
        } else if n % 3 == 1 {
            pixel.g = bytes[n];
        } else {
            pixel.b = bytes[n];
            pixels.push(pixel);
        }
        proof {
            let t = bytes@.take(n + 1);
            if n % 3 == 2 {
                assert(pixels_of_bytes(t).len() == pixels_of_bytes(bytes@.take(n as int)).len() + 1);
                assert(pixels@ =~= pixels_of_bytes(t));
            } else {
                assert(pixels@ =~= pixels_of_bytes(t));
            }
        }
        n = n + 1;
    }
    assert(bytes@.take(bytes@.len() as int) =~= bytes@);
    pixels
}

impl From<[u8; 3]> for Pixel {
    fn from(bytes: [u8; 3]) -> (pixel: Pixel) {
        Pixel { r: bytes[0], g: bytes[1], b: bytes[2] }
    }
}

impl vstd::std_specs::convert::FromSpecImpl<[u8; 3]> for Pixel {
    open spec fn obeys_from_spec() -> bool {
        true
    }

    open spec fn from_spec(bytes: [u8; 3]) -> Pixel {
        Pixel { r: bytes@[0], g: bytes@[1], b: bytes@[2] }
    }
}

/// The outcome of shrinking a `width`×`height` picture made of `pixels` to `size`×`size`.
pub open spec fn compressed(width: u16, height: u16, pixels: Seq<Pixel>, size: usize) -> Result<Seq<Pixel>, CompressError> {
    let bytes = bytes_of_pixels(pixels);
    match scale::scale_error(width as usize, height as usize, bytes.len() as int, size, size) {
        Some(e) => Err(CompressError::Scale(e)),
        None => Ok(pixels_of_bytes(scale::scaled_bytes(width as int, height as int, bytes, size as int, size as int))),
    }
}

/// Whether a `width`×`height` picture of `n` pixels can be compressed within `usize`
/// arithmetic.
pub open spec fn compress_fits(width: u16, height: u16, n: int) -> bool {
    &&& 765 * width * height <= usize::MAX
    &&& 3 * n <= usize::MAX
}

fn compress(width: u16, height: u16, pixels: Vec<Pixel>, size: usize) -> (r: Result<Vec<Pixel>, CompressError>)
    requires
        compress_fits(width, height, pixels@.len() as int),
        size <= 8,
    ensures
        match r {
            Ok(v) => compressed(width, height, pixels@, size) == Ok::<Seq<Pixel>, CompressError>(v@),
            Err(e) => compressed(width, height, pixels@, size) == Err::<Seq<Pixel>, CompressError>(e),
        },
{
    let image = Image::from(width, height, pixels);
    proof {
        assert(image.width * size <= image.width * 8) by (nonlinear_arith)
            requires
                size <= 8,
        ;
        assert(image.height * size <= image.height * 8) by (nonlinear_arith)
            requires
                size <= 8,
        ;
        assert(image.width * 8 <= 765 * image.width * image.height || image.height == 0) by (nonlinear_arith);
        assert(image.height * 8 <= 765 * image.width * image.height || image.width == 0) by (nonlinear_arith);
    }
    match scale(&image, size, size) {
        Ok(scaled) => Ok(pixels_of_image(scaled)),
        Err(e) => Err(CompressError::Scale(e)),
    }
}

/// Shrinks a picture to 8×8 pixels, each the average of the pixels that land on it.
pub fn compress_8x8(width: u16, height: u16, pixels: Vec<Pixel>) -> (r: Result<Vec<Pixel>, CompressError>)
    requires
        compress_fits(width, height, pixels@.len() as int),
    ensures
        match r {
            Ok(v) => compressed(width, height, pixels@, 8) == Ok::<Seq<Pixel>, CompressError>(v@),
            Err(e) => compressed(width, height, pixels@, 8) == Err::<Seq<Pixel>, CompressError>(e),
        },
{
    compress(width, height, pixels, 8)
}

/// Shrinks a picture to a single pixel, the average of all of its pixels.
pub fn compress_1x1(width: u16, height: u16, pixels: Vec<Pixel>) -> (r: Result<Pixel, CompressError>)
    requires
        compress_fits(width, height, pixels@.len() as int),
    ensures
        match r {
            Ok(p) => compressed(width, height, pixels@, 1) == Ok::<Seq<Pixel>, CompressError>(seq![p]),
            Err(e) => compressed(width, height, pixels@, 1) == Err::<Seq<Pixel>, CompressError>(e),
        },
{
    match compress(width, height, pixels, 1) {
        Ok(v) => {
            assert(v@.len() == 1);
            assert(v@ =~= seq![v@[0]]);
            Ok(v[0])
        },
        Err(e) => Err(e),
    }
}

/// What decoding the JPEG picture `bytes` gives: its pixels, three bytes each for an RGB
/// picture, or the decoder's description of the error that stopped it.
pub uninterp spec fn jpeg_decoding(bytes: Seq<u8>) -> Result<Seq<u8>, Seq<char>>;

/// An outcome of decoding, its pixels and its error description taken by their views.
pub open spec fn decoding_view(decoded: Result<Vec<u8>, String>) -> Result<Seq<u8>, Seq<char>> {
    match decoded {
        Ok(pixels) => Ok(pixels@),
        Err(description) => Err(description@),
    }
}

/// The pixels of the JPEG picture `bytes`, when it can be decoded.
pub open spec fn jpeg_pixels(bytes: Seq<u8>) -> Option<Seq<u8>> {
    match jpeg_decoding(bytes) {
        Ok(pixels) => Some(pixels),
        Err(_) => None,
    }
}

/// What the JPEG decoder reports of the picture `bytes` once it has decoded it: its width,
/// its height, and whether its pixels are 24-bit RGB.
pub uninterp spec fn jpeg_info(bytes: Seq<u8>) -> Option<(u16, u16, bool)>;

/// Decodes the JPEG picture `bytes` with `jpeg_decoder::Decoder::decode`, then reads what
/// `jpeg_decoder::Decoder::info` reports of it. Claimed: the pixels, or the debug description
/// of the decoder's error, are `jpeg_decoding(bytes)`, and the report is `jpeg_info(bytes)`,
/// both functions of the bytes alone; what they are is the decoder's business and is left
/// unsaid.
#[verifier::external_body]
fn decode_jpeg(bytes: &[u8]) -> (r: (Result<Vec<u8>, String>, Option<(u16, u16, bool)>))
    ensures
        decoding_view(r.0) == jpeg_decoding(bytes@),
        r.1 == jpeg_info(bytes@),
{
    let mut decoder = jpeg_decoder::Decoder::new(bytes);
    let pixels = match decoder.decode() {
        Ok(pixels) => Ok(pixels),
        Err(error) => Err(format!("{:?}", error)),
    };
    let info = decoder.info().map(|info| {
        let rgb24 = match info.pixel_format {
            jpeg_decoder::PixelFormat::RGB24 => true,
            jpeg_decoder::PixelFormat::L8 => false,
            jpeg_decoder::PixelFormat::L16 => false,
            jpeg_decoder::PixelFormat::CMYK32 => false,
        };
        (info.width, info.height, rgb24)
    });
    (pixels, info)
}

/// The outcome of reading the JPEG picture `bytes` as an RGB [`Image`].
pub open spec fn jpeg_image(bytes: Seq<u8>) -> Result<(u16, u16, Seq<u8>), Error> {
    match jpeg_pixels(bytes) {
        None => Err(Error::JpegDecodingError),
        Some(pixels) => match jpeg_info(bytes) {
            None => Err(Error::JpegInfoError),
            Some((width, height, rgb24)) => if rgb24 {
                Ok((width, height, pixels))
            } else {
                Err(Error::JpegPixelFormatError)
            },
        },
    }
}

impl Image {
    /// Reads an RGB image out of the JPEG picture `bytes`; grayscale and CMYK pictures are
    /// refused.
    pub fn from_jpeg(bytes: &[u8]) -> (r: Result<Image, Error>)
        ensures
            match r {
                Ok(image) => jpeg_image(bytes@) == Ok::<(u16, u16, Seq<u8>), Error>(
                    (image.width as u16, image.height as u16, image.bytes@),
                ) && image.width < 65536 && image.height < 65536,
                Err(e) => jpeg_image(bytes@) == Err::<(u16, u16, Seq<u8>), Error>(e),
            },
    {
        let (pixels, info) = decode_jpeg(bytes);
        let pixels = match pixels {
            Ok(pixels) => pixels,
            Err(_) => return Err(Error::JpegDecodingError),
        };
        let (width, height, rgb24) = match info {
            Some(info) => info,
            None => return Err(Error::JpegInfoError),
        };
        if !rgb24 {
            return Err(Error::JpegPixelFormatError);
        }
        Ok(Image { width: width as usize, height: height as usize, bytes: pixels })
    }
}

/// The pixels that the compression of the JPEG picture `bytes` works on: the decoded bytes
/// grouped three by three.
pub open spec fn jpeg_source_pixels(bytes: Seq<u8>) -> Option<Seq<Pixel>> {
    match jpeg_pixels(bytes) {
        Some(decoded) => Some(pixels_of_bytes(decoded)),
        None => None,
    }
}

/// Decodes the JPEG picture `bytes` and hands its pixels to `algo`, as a 64×64 picture (the
/// size of the album covers this is used for). A picture that cannot be decoded gives
/// `Err(CompressError::Decoding(description))`, with the decoder's description of why.
pub fn compress_from_jpeg<A, F: FnOnce(u16, u16, Vec<Pixel>) -> Result<A, CompressError>>(
    bytes: &[u8],
    algo: F,
) -> (r: Result<A, CompressError>)
    requires
        forall|pixels: Vec<Pixel>|
            pixels@.len() <= usize::MAX / 3 ==> call_requires(algo, (64u16, 64u16, pixels)),
    ensures
        jpeg_decoding(bytes@) matches Err(description) ==> (r matches Err(CompressError::Decoding(d))
            && d@ == description),
        jpeg_source_pixels(bytes@) matches Some(pixels) ==> exists|v: Vec<Pixel>|
            v@ == pixels && call_ensures(algo, (64u16, 64u16, v), r),
{
    let (decoded, _) = decode_jpeg(bytes);
    match decoded {
        Err(description) => Err(CompressError::Decoding(description)),
        Ok(decoded) => {
            let n = decoded.len();
            let pixels = group_pixels(&decoded);
            assert(pixels@.len() == n / 3);
            // The pictures are assumed to be 64x64.
            let r = algo(64, 64, pixels);
            r
        },
    }
}

} // verus!
