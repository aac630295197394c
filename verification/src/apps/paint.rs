//! An application that paints the pads of a grid with colors picked from a palette.
use vstd::prelude::*;

use std::collections::VecDeque;

use super::{App, In, Out, RecvError, SendError};
use crate::image::Image;
use crate::midi::devices::launchpadpro::grid_controller::launchpad_coordinates_usize;
use crate::midi::devices::launchpadpro::{as_usize, launchpad_palette_index};
use crate::midi::devices::DeviceFeatures;
use crate::midi::features::{ColorPalette, GridController, ImageRenderer, R};
use crate::midi::Event;

verus! {

pub const NAME: &'static str = "paint";

pub const COLOR: [u8; 3] = [255, 255, 0];

/// The paint application needs no configuration.
#[derive(Clone, Debug)]
pub struct Config {}

/// The configuration of the application: there is nothing to ask.
pub fn configure() -> (r: Config)
    ensures
        r == (Config {  }),
{
    Config {  }
}

/// The color of index `index` (0 to 7) of the palette: black, blue, green, cyan, red,
/// magenta, yellow, white.
pub open spec fn palette(index: int) -> Seq<u8> {
    let r: u8 = if index >= 4 { 255 } else { 0 };
    let g: u8 = if index % 4 >= 2 { 255 } else { 0 };
    let b: u8 = if index % 2 == 1 { 255 } else { 0 };
    seq![r, g, b]
}

/// The eight colors of the palette, in order.
pub open spec fn palette_colors() -> Seq<Seq<u8>> {
    Seq::new(8, |i: int| palette(i))
}

/// The color of index `index` of the palette.
pub fn palette_color(index: usize) -> (r: [u8; 3])
    requires
        index < 8,
    ensures
        r@ == palette(index as int),
{
    let r: u8 = if index >= 4 { 255 } else { 0 };
    let g: u8 = if index % 4 >= 2 { 255 } else { 0 };
    let b: u8 = if index % 2 == 1 { 255 } else { 0 };
    let color = [r, g, b];
    assert(color@ =~= palette(index as int));
    color
}

/// The colors of the palette, in order.
pub fn color_palette() -> (r: Vec<[u8; 3]>)
    ensures
        r@.len() == 8,
        forall|i: int| 0 <= i < 8 ==> (#[trigger] r@[i])@ == palette(i),
{
    let mut colors: Vec<[u8; 3]> = Vec::with_capacity(8);
    let mut i: usize = 0;
    while i < 8
        invariant
            i <= 8,
            colors@.len() == i,
            forall|j: int| 0 <= j < i ==> (#[trigger] colors@[j])@ == palette(j),
        decreases 8 - i,
    {
        colors.push(palette_color(i));
        i = i + 1;
    }
    colors
}

/// The bytes of an RGB picture `width` pixels wide with the pixel `(x, y)` set to `color`:
/// the three bytes from `3 * (y * width + x)` on.
pub open spec fn painted_bytes(bytes: Seq<u8>, width: int, x: int, y: int, color: Seq<u8>) -> Seq<u8> {
    let pos = 3 * (y * width + x);
    Seq::new(bytes.len(), |i: int| if pos <= i < pos + 3 { color[i - pos] } else { bytes[i] })
}

/// Painting a pixel twice with the same color paints it once.
pub proof fn painting_twice_paints_once(bytes: Seq<u8>, width: int, x: int, y: int, color: Seq<u8>)
    ensures
        painted_bytes(painted_bytes(bytes, width, x, y, color), width, x, y, color) == painted_bytes(
            bytes,
            width,
            x,
            y,
            color,
        ),
{
    assert(painted_bytes(painted_bytes(bytes, width, x, y, color), width, x, y, color) =~= painted_bytes(
        bytes,
        width,
        x,
        y,
        color,
    ));
}

/// Painting the pixel `(x, y)` of a `width`×`height` picture sets the three channels of that
/// pixel, and of no other pixel, to the color; the size of the picture stays.
pub proof fn painting_sets_exactly_the_painted_pixel(
    bytes: Seq<u8>,
    width: int,
    height: int,
    x: int,
    y: int,
    color: Seq<u8>,
    px: int,
    py: int,
    c: int,
)
    requires
        bytes.len() == 3 * width * height,
        color.len() == 3,
        0 <= x < width,
        0 <= y < height,
        0 <= px < width,
        0 <= py < height,
        0 <= c < 3,
    ensures
        painted_bytes(bytes, width, x, y, color).len() == bytes.len(),
        painted_bytes(bytes, width, x, y, color)[3 * (py * width + px) + c] == if px == x && py == y {
            color[c]
        } else {
            bytes[3 * (py * width + px) + c]
        },
{
    assert(0 <= 3 * (py * width + px) + c < 3 * width * height) by (nonlinear_arith)
        requires
            0 <= px < width,
            0 <= py < height,
            0 <= c < 3,
    ;
    if !(px == x && py == y) {
        // Two different pixels have disjoint triples of bytes.
        assert(py * width + px != y * width + x) by (nonlinear_arith)
            requires
                0 <= px < width,
                0 <= x < width,
                py != y || px != x,
        ;
    }
}

/// The palette has eight different colors, each channel fully off or fully on: black first,
/// then blue, green, cyan, red, magenta, yellow and white.
pub proof fn the_palette_has_eight_distinct_colors(i: int, j: int, c: int)
    requires
        0 <= i < 8,
        0 <= j < 8,
        0 <= c < 3,
    ensures
        i != j ==> palette(i) != palette(j),
        palette(i)[c] == 0 || palette(i)[c] == 255,
        palette(0) == seq![0u8, 0, 0],
        palette(4) == seq![255u8, 0, 0],
        palette(7) == seq![255u8, 255, 255],
{
    if i != j {
        if palette(i) == palette(j) {
            assert(palette(i)[0] == palette(j)[0] && palette(i)[1] == palette(j)[1] && palette(i)[2]
                == palette(j)[2]);
        }
    }
    assert(palette(0) =~= seq![0u8, 0, 0]);
    assert(palette(4) =~= seq![255u8, 0, 0]);
    assert(palette(7) =~= seq![255u8, 255, 255]);
}

/// The color index that `event` selects on a device with `features`, if any.
pub open spec fn selected_color(features: DeviceFeatures, event: Event) -> Option<usize> {
    match features {
        DeviceFeatures::Default(_) => None,
        DeviceFeatures::LaunchpadPro(_) => as_usize(launchpad_palette_index(event)),
    }
}

/// The pad that `event` presses on a device with `features`, if any.
pub open spec fn pressed_pad(features: DeviceFeatures, event: Event) -> Option<(usize, usize)> {
    match features {
        DeviceFeatures::Default(_) => None,
        DeviceFeatures::LaunchpadPro(_) => launchpad_coordinates_usize(event),
    }
}

/// Whether `after` is `before` followed by what rendering `image` with `features` gives, when
/// it can be rendered.
pub open spec fn emits_image(features: DeviceFeatures, width: usize, height: usize, bytes: Seq<u8>, before: Seq<Out>, after: Seq<Out>) -> bool {
    exists|image: Image, r: R<Event>|
        image.width == width && image.height == height && image.bytes@ == bytes
            && #[trigger] features.renders_image(image, r) && match r {
            Ok(e) => after == before.push(Out::Midi(e)),
            Err(_) => after == before,
        }
}

/// The image being painted: it covers the 8×8 grid, or is empty on devices without a grid.
struct Canvas {
    image: Image,
}

impl Canvas {
    #[verifier::type_invariant]
    spec fn inv(self) -> bool {
        &&& (self.image.width == 8 && self.image.height == 8) || (self.image.width == 0
            && self.image.height == 0)
        &&& self.image.bytes@.len() == 3 * self.image.width * self.image.height
    }

    /// This canvas with the pixel `(x, y)` set to `color`, when it is within the image.
    fn paint(self, x: usize, y: usize, color: [u8; 3]) -> (r: Canvas)
        ensures
            r.image.width == self.image.width,
            r.image.height == self.image.height,
            x < self.image.width && y < self.image.height ==> r.image.bytes@ == painted_bytes(
                self.image.bytes@,
                self.image.width as int,
                x as int,
                y as int,
                color@,
            ),
            !(x < self.image.width && y < self.image.height) ==> r.image.bytes@
                == self.image.bytes@,
    {
        proof {
            use_type_invariant(&self);
        }
        let Canvas { image } = self;
        let Image { width, height, bytes } = image;
        let mut bytes = bytes;
        if x < width && y < height {
            assert(width == 8 && height == 8);
            assert(bytes@.len() == 3 * 8 * 8);
            assert(y * 3 * 8 + x * 3 + 2 < 192) by (nonlinear_arith)
                requires
                    x < 8,
                    y < 8,
            ;
            let pos = y * 3 * 8 + x * 3;
            assert(pos == 3 * (y * 8 + x)) by (nonlinear_arith)
                requires
                    pos == y * 3 * 8 + x * 3,
            ;
            let ghost before = bytes@;
            bytes.set(pos, color[0]);
            bytes.set(pos + 1, color[1]);
            bytes.set(pos + 2, color[2]);
            assert(bytes@ =~= painted_bytes(before, 8, x as int, y as int, color@));
        }
        Canvas { image: Image { width, height, bytes } }
    }

    /// The empty canvas.
    fn empty() -> (r: Canvas)
        ensures
            r.image.width == 0,
            r.image.height == 0,
            r.image.bytes@ == Seq::<u8>::empty(),
    {
        Canvas { image: Image { width: 0, height: 0, bytes: Vec::new() } }
    }
}

/// The paint application: an image of the size of the input grid, a current color, and the
/// events waiting for the output device.
pub struct Paint {
    input_features: DeviceFeatures,
    output_features: DeviceFeatures,
    pending: VecDeque<Out>,
    canvas: Canvas,
    color: [u8; 3],
}

impl Paint {
    pub closed spec fn input_features(&self) -> DeviceFeatures {
        self.input_features
    }

    pub closed spec fn output_features(&self) -> DeviceFeatures {
        self.output_features
    }

    /// The events waiting for the output device, oldest first.
    pub closed spec fn pending(&self) -> Seq<Out> {
        self.pending@
    }

    pub closed spec fn width(&self) -> usize {
        self.canvas.image.width
    }

    pub closed spec fn height(&self) -> usize {
        self.canvas.image.height
    }

    /// The bytes of the painted image.
    pub closed spec fn bytes(&self) -> Seq<u8> {
        self.canvas.image.bytes@
    }

    /// The current color.
    pub closed spec fn color(&self) -> Seq<u8> {
        self.color@
    }

    /// The image covers the 8×8 grid, or is empty on devices without a grid, with three bytes
    /// per pixel.
    pub open spec fn has_whole_image(&self) -> bool {
        &&& (self.width() == 8 && self.height() == 8) || (self.width() == 0 && self.height() == 0)
        &&& self.bytes().len() == 3 * self.width() * self.height()
    }

    /// What handing `event` over leaves of this application as `next`: a button of the
    /// palette selects a color; a pad of the grid gets painted with the current color and the
    /// image gets rendered; anything else changes nothing.
    pub open spec fn step(&self, event: In, next: Paint) -> bool {
        &&& next.input_features() == self.input_features()
        &&& next.output_features() == self.output_features()
        &&& next.width() == self.width()
        &&& next.height() == self.height()
        &&& next.has_whole_image()
        &&& match event {
            In::Midi(e) => match selected_color(self.input_features(), e) {
                Some(index) => {
                    &&& index < 8 ==> next.color() == palette(index as int)
                    &&& index >= 8 ==> next.color() == self.color()
                    &&& next.bytes() == self.bytes()
                    &&& next.pending() == self.pending()
                },
                None => {
                    &&& next.color() == self.color()
                    &&& match pressed_pad(self.input_features(), e) {
                        Some((x, y)) => if x < self.width() && y < self.height() {
                            &&& next.bytes() == painted_bytes(self.bytes(), self.width() as int, x as int, y as int, self.color())
                            &&& emits_image(self.output_features(), self.width(), self.height(), next.bytes(), self.pending(), next.pending())
                        } else {
                            &&& next.bytes() == self.bytes()
                            &&& next.pending() == self.pending()
                        },
                        None => {
                            &&& next.bytes() == self.bytes()
                            &&& next.pending() == self.pending()
                        },
                    }
                },
            },
            In::Server(_) => {
                &&& next.color() == self.color()
                &&& next.bytes() == self.bytes()
                &&& next.pending() == self.pending()
            },
        }
    }


    /// A black image of the size of the input grid (empty when the input device has no
    /// grid), painted in black.
    pub fn new(config: Config, input_features: DeviceFeatures, output_features: DeviceFeatures) -> (r: Paint)
        ensures
            r.input_features() == input_features,
            r.output_features() == output_features,
            input_features is LaunchpadPro ==> r.width() == 8 && r.height() == 8,
            input_features is Default ==> r.width() == 0 && r.height() == 0,
            r.has_whole_image(),
            forall|i: int| 0 <= i < r.bytes().len() ==> r.bytes()[i] == 0,
            r.color() == palette(0),
            r.pending() == Seq::<Out>::empty(),
    {
        let (width, height) = match input_features.get_grid_size() {
            Ok((w, h)) => (w, h),
            Err(_) => (0, 0),
        };
        assert((width == 8 && height == 8) || (width == 0 && height == 0));
        let image = Image { width, height, bytes: vec![0u8; width * height * 3] };
        let r = Paint {
            input_features,
            output_features,
            pending: VecDeque::new(),
            canvas: Canvas { image },
            color: palette_color(0),
        };
        proof {
            use_type_invariant(&r.canvas);
        }
        r
    }

    /// Lights the color palette on the output device.
    pub fn render_color_palette(&mut self)
        ensures
            final(self).has_whole_image(),
            final(self).input_features() == old(self).input_features(),
            final(self).output_features() == old(self).output_features(),
            final(self).width() == old(self).width(),
            final(self).height() == old(self).height(),
            final(self).bytes() == old(self).bytes(),
            final(self).color() == old(self).color(),
            exists|colors: Seq<[u8; 3]>, r: R<Event>|
                colors.map_values(|c: [u8; 3]| c@) == palette_colors()
                    && #[trigger] old(self).output_features().lights_palette(colors, r) && match r {
                    Ok(e) => final(self).pending() == old(self).pending().push(Out::Midi(e)),
                    Err(_) => final(self).pending() == old(self).pending(),
                },
    {
        let colors = color_palette();
        let ghost colors_view = colors@;
        assert(colors_view.map_values(|c: [u8; 3]| c@) =~= palette_colors());
        let r = self.output_features.from_color_palette(colors);
        if let Ok(event) = r {
            self.pending.push_back(Out::Midi(event));
        }
        proof {
            use_type_invariant(&self.canvas);
        }
    }

    /// Paints the pixel `(x, y)` with the current color and renders the image on the output
    /// device; a pixel out of the image is ignored.
    pub fn render_pixel(&mut self, x: usize, y: usize)
        ensures
            final(self).has_whole_image(),
            final(self).input_features() == old(self).input_features(),
            final(self).output_features() == old(self).output_features(),
            final(self).width() == old(self).width(),
            final(self).height() == old(self).height(),
            final(self).color() == old(self).color(),
            x < old(self).width() && y < old(self).height() ==> {
                &&& final(self).bytes() == painted_bytes(old(self).bytes(), old(self).width() as int, x as int, y as int, old(self).color())
                &&& emits_image(old(self).output_features(), old(self).width(), old(self).height(), final(self).bytes(), old(self).pending(), final(self).pending())
            },
            !(x < old(self).width() && y < old(self).height()) ==> {
                &&& final(self).bytes() == old(self).bytes()
                &&& final(self).pending() == old(self).pending()
            },
    {
        if x < self.canvas.image.width && y < self.canvas.image.height {
            let mut canvas = Canvas::empty();
            std::mem::swap(&mut canvas, &mut self.canvas);
            self.canvas = canvas.paint(x, y, self.color);
            let copy = self.canvas.image.duplicate();
            let ghost copy_view = copy;
            let r = self.output_features.from_image(copy);
            if let Ok(event) = r {
                self.pending.push_back(Out::Midi(event));
            }
            assert(self.output_features.renders_image(copy_view, r));
        }
        proof {
            use_type_invariant(&self.canvas);
        }
    }

    /// Makes the color of index `index` of the palette the current color; an index out of the
    /// palette is ignored.
    pub fn select_color(&mut self, index: usize)
        ensures
            final(self).has_whole_image(),
            final(self).input_features() == old(self).input_features(),
            final(self).output_features() == old(self).output_features(),
            final(self).width() == old(self).width(),
            final(self).height() == old(self).height(),
            final(self).bytes() == old(self).bytes(),
            final(self).pending() == old(self).pending(),
            index < 8 ==> final(self).color() == palette(index as int),
            index >= 8 ==> final(self).color() == old(self).color(),
    {
        if index < 8 {
            self.color = palette_color(index);
        }
        proof {
            use_type_invariant(&self.canvas);
        }
    }
}

impl App for Paint {
    open spec fn has_color(&self, color: [u8; 3]) -> bool {
        color == COLOR
    }

    /// The logo is the painted image.
    open spec fn has_logo(&self, logo: Image) -> bool {
        logo.width == self.width() && logo.height == self.height() && logo.bytes@ == self.bytes()
    }

    open spec fn accepts(&self, event: In, next: Self, r: Result<(), SendError>) -> bool {
        r is Ok && self.step(event, next)
    }

    /// The oldest waiting event, for the output device; nothing else changes.
    open spec fn emits(&self, next: Self, r: Result<Out, RecvError>) -> bool {
        &&& self.pending().len() == 0 ==> r == Err::<Out, RecvError>(RecvError::Empty)
            && next.pending() == self.pending()
        &&& self.pending().len() > 0 ==> r == Ok::<Out, RecvError>(self.pending()[0])
            && next.pending() == self.pending().drop_first()
        &&& next.input_features() == self.input_features()
        &&& next.output_features() == self.output_features()
        &&& next.width() == self.width()
        &&& next.height() == self.height()
        &&& next.bytes() == self.bytes()
        &&& next.color() == self.color()
        &&& next.has_whole_image()
    }

    fn get_name(&self) -> (r: &'static str)
        ensures
            r == NAME,
    {
        NAME
    }

    fn get_color(&self) -> (r: [u8; 3]) {
        COLOR
    }

    fn get_logo(&self) -> (r: Image) {
        self.canvas.image.duplicate()
    }

    fn send(&mut self, event: In) -> (r: Result<(), SendError>) {
        if let In::Midi(event) = event {
            match self.input_features.into_color_palette_index(event.duplicate()) {
                Ok(Some(index)) => {
                    self.select_color(index);
                    return Ok(());
                },
                _ => {},
            }
            if let Ok(Some((x, y))) = self.input_features.into_coordinates(event) {
                self.render_pixel(x, y);
            }
        }
        proof {
            use_type_invariant(&self.canvas);
        }
        Ok(())
    }

    fn receive(&mut self) -> (r: Result<Out, RecvError>) {
        let r = match self.pending.pop_front() {
            Some(out) => Ok(out),
            None => Err(RecvError::Empty),
        };
        proof {
            use_type_invariant(&self.canvas);
        }
        r
    }

    /// Lights the palette when the application gets selected.
    fn on_select(&mut self)
        ensures
            final(self).has_whole_image(),
            final(self).input_features() == old(self).input_features(),
            final(self).output_features() == old(self).output_features(),
            final(self).width() == old(self).width(),
            final(self).height() == old(self).height(),
            final(self).bytes() == old(self).bytes(),
            final(self).color() == old(self).color(),
            exists|colors: Seq<[u8; 3]>, r: R<Event>|
                colors.map_values(|c: [u8; 3]| c@) == palette_colors()
                    && #[trigger] old(self).output_features().lights_palette(colors, r) && match r {
                    Ok(e) => final(self).pending() == old(self).pending().push(Out::Midi(e)),
                    Err(_) => final(self).pending() == old(self).pending(),
                },
    {
        self.render_color_palette();
    }
}

} // verus!
