//! The features of a configured device, whatever its kind.
use vstd::prelude::*;

use super::default::DefaultFeatures;
use super::launchpadpro::grid_controller::launchpad_coordinates_usize;
use super::launchpadpro::image_renderer::{renders, rendered_image};
use super::launchpadpro::{as_usize, launchpad_app_index, launchpad_index, launchpad_palette_index};
use super::launchpadpro::LaunchpadProFeatures;
use crate::image::Image;
use crate::midi::features::{
    default_app_index, default_index, is_sysex, is_unsupported, AppSelector, ColorPalette,
    FeatureError, Features, GridController, ImageRenderer, IndexSelector, R,
};
use crate::midi::grid::{bottom_led, highlight_frame, lighting_frame, pad_code, right_led};
use crate::midi::{Error, Event};

verus! {

/// The features of a device, by kind.
#[derive(Clone, Copy, Debug)]
pub enum DeviceFeatures {
    Default(DefaultFeatures),
    LaunchpadPro(LaunchpadProFeatures),
}

impl DeviceFeatures {
    /// The index that `event` designates.
    pub open spec fn index_of(self, event: Event) -> Option<usize> {
        match self {
            DeviceFeatures::Default(_) => default_index(event),
            DeviceFeatures::LaunchpadPro(_) => as_usize(launchpad_index(event)),
        }
    }

    /// The application index that `event` designates.
    pub open spec fn app_index_of(self, event: Event) -> Option<usize> {
        match self {
            DeviceFeatures::Default(_) => default_app_index(event),
            DeviceFeatures::LaunchpadPro(_) => as_usize(launchpad_app_index(event)),
        }
    }

    /// Whether `r` is what highlighting the pad of `index` gives.
    pub open spec fn highlights(self, index: usize, r: R<Event>) -> bool {
        match self {
            DeviceFeatures::Default(_) => is_unsupported(r),
            DeviceFeatures::LaunchpadPro(_) => match r {
                Ok(event) => index <= 63 && is_sysex(event, highlight_frame(pad_code(index as int) as u8)),
                Err(e) => index > 63 && e == FeatureError::IndexOutOfBound {
                    actual_value: index,
                    maximum_value: 63,
                },
            },
        }
    }

    /// Whether `r` is what lighting the application buttons with `colors` gives.
    pub open spec fn lights_apps(self, colors: Seq<[u8; 3]>, r: R<Event>) -> bool {
        match self {
            DeviceFeatures::Default(_) => is_unsupported(r),
            DeviceFeatures::LaunchpadPro(_) => match r {
                Ok(event) => colors.len() <= 8 && is_sysex(
                    event,
                    lighting_frame(colors, |i: int| right_led(i)),
                ),
                Err(e) => colors.len() > 8 && e == FeatureError::Midi(Error::OutOfBoundIndexError),
            },
        }
    }

    /// Whether `r` is what lighting the color palette with `colors` gives.
    pub open spec fn lights_palette(self, colors: Seq<[u8; 3]>, r: R<Event>) -> bool {
        match self {
            DeviceFeatures::Default(_) => is_unsupported(r),
            DeviceFeatures::LaunchpadPro(_) => match r {
                Ok(event) => colors.len() <= 8 && is_sysex(
                    event,
                    lighting_frame(colors, |i: int| bottom_led(i)),
                ),
                Err(e) => colors.len() > 8 && e == FeatureError::Midi(Error::OutOfBoundIndexError),
            },
        }
    }

    /// Whether `r` is the color index that `event` selects.
    pub open spec fn palette_index(self, event: Event, r: R<Option<usize>>) -> bool {
        match self {
            DeviceFeatures::Default(_) => is_unsupported(r),
            DeviceFeatures::LaunchpadPro(_) => r == Ok::<Option<usize>, FeatureError>(
                as_usize(launchpad_palette_index(event)),
            ),
        }
    }

    /// Whether `r` is the size of the grid.
    pub open spec fn grid_size(self, r: R<(usize, usize)>) -> bool {
        match self {
            DeviceFeatures::Default(_) => is_unsupported(r),
            DeviceFeatures::LaunchpadPro(_) => r == Ok::<(usize, usize), FeatureError>((8, 8)),
        }
    }

    /// Whether `r` is the coordinates of the pad that `event` presses.
    pub open spec fn coordinates(self, event: Event, r: R<Option<(usize, usize)>>) -> bool {
        match self {
            DeviceFeatures::Default(_) => is_unsupported(r),
            DeviceFeatures::LaunchpadPro(_) => r == Ok::<Option<(usize, usize)>, FeatureError>(
                launchpad_coordinates_usize(event),
            ),
        }
    }

    /// Whether `r` is what rendering `image` gives.
    pub open spec fn renders_image(self, image: Image, r: R<Event>) -> bool {
        match self {
            DeviceFeatures::Default(_) => is_unsupported(r),
            DeviceFeatures::LaunchpadPro(_) => renders(r, rendered_image(image)),
        }
    }
}

impl AppSelector for DeviceFeatures {
    fn into_app_index(&self, event: Event) -> (r: R<Option<usize>>)
        ensures
            r == Ok::<Option<usize>, FeatureError>(self.app_index_of(event)),
    {
        match self {
            DeviceFeatures::Default(f) => f.into_app_index(event),
            DeviceFeatures::LaunchpadPro(f) => f.into_app_index(event),
        }
    }

    fn from_app_colors(&self, app_colors: Vec<[u8; 3]>) -> (r: R<Event>)
        ensures
            self.lights_apps(app_colors@, r),
    {
        match self {
            DeviceFeatures::Default(f) => f.from_app_colors(app_colors),
            DeviceFeatures::LaunchpadPro(f) => f.from_app_colors(app_colors),
        }
    }
}

impl ColorPalette for DeviceFeatures {
    fn into_color_palette_index(&self, event: Event) -> (r: R<Option<usize>>)
        ensures
            self.palette_index(event, r),
    {
        match self {
            DeviceFeatures::Default(f) => f.into_color_palette_index(event),
            DeviceFeatures::LaunchpadPro(f) => f.into_color_palette_index(event),
        }
    }

    fn from_color_palette(&self, colors: Vec<[u8; 3]>) -> (r: R<Event>)
        ensures
            self.lights_palette(colors@, r),
    {
        match self {
            DeviceFeatures::Default(f) => f.from_color_palette(colors),
            DeviceFeatures::LaunchpadPro(f) => f.from_color_palette(colors),
        }
    }
}

impl GridController for DeviceFeatures {
    fn get_grid_size(&self) -> (r: R<(usize, usize)>)
        ensures
            self.grid_size(r),
    {
        match self {
            DeviceFeatures::Default(f) => f.get_grid_size(),
            DeviceFeatures::LaunchpadPro(f) => f.get_grid_size(),
        }
    }

    fn into_coordinates(&self, event: Event) -> (r: R<Option<(usize, usize)>>)
        ensures
            self.coordinates(event, r),
    {
        match self {
            DeviceFeatures::Default(f) => f.into_coordinates(event),
            DeviceFeatures::LaunchpadPro(f) => f.into_coordinates(event),
        }
    }
}

impl ImageRenderer for DeviceFeatures {
    fn from_image(&self, image: Image) -> (r: R<Event>)
        ensures
            self.renders_image(image, r),
    {
        match self {
            DeviceFeatures::Default(f) => f.from_image(image),
            DeviceFeatures::LaunchpadPro(f) => f.from_image(image),
        }
    }
}

impl IndexSelector for DeviceFeatures {
    fn into_index(&self, event: Event) -> (r: R<Option<usize>>)
        ensures
            r == Ok::<Option<usize>, FeatureError>(self.index_of(event)),
    {
        match self {
            DeviceFeatures::Default(f) => f.into_index(event),
            DeviceFeatures::LaunchpadPro(f) => f.into_index(event),
        }
    }

    fn from_index_to_highlight(&self, index: usize) -> (r: R<Event>)
        ensures
            self.highlights(index, r),
    {
        match self {
            DeviceFeatures::Default(f) => f.from_index_to_highlight(index),
            DeviceFeatures::LaunchpadPro(f) => f.from_index_to_highlight(index),
        }
    }
}

impl Features for DeviceFeatures {

}


/// On a device with application buttons, the button lit with the `k`-th color is the button
/// that selects the `k`-th application, and it shows that color brought down to the range of
/// the device; likewise the button of the palette lit with the `k`-th color selects the
/// `k`-th color.
pub proof fn lit_buttons_select_what_they_show(
    features: DeviceFeatures,
    colors: Seq<[u8; 3]>,
    e: Event,
    k: int,
    velocity: u8,
    extra: u8,
)
    requires
        features is LaunchpadPro,
        0 <= k < colors.len(),
        velocity > 0,
    ensures
        features.lights_apps(colors, Ok(e)) ==> (e matches Event::SysEx(b) && features.app_index_of(
            Event::Midi([176u8, b@[7 + 4 * k], velocity, extra]),
        ) == Some(k as usize) && forall|c: int|
            0 <= c < 3 ==> b@[7 + 4 * k + 1 + c] == colors[k]@[c] / 4),
        features.lights_palette(colors, Ok(e)) ==> (e matches Event::SysEx(b) && features.palette_index(
            Event::Midi([176u8, b@[7 + 4 * k], velocity, extra]),
            Ok(Some(k as usize)),
        ) && forall|c: int| 0 <= c < 3 ==> b@[7 + 4 * k + 1 + c] == colors[k]@[c] / 4),
{
    let right = (89 - 10 * k) as u8;
    let bottom = (k + 1) as u8;
    if features.lights_apps(colors, Ok(e)) {
        let b = e->SysEx_0;
        let frame = lighting_frame(colors, |i: int| right_led(i));
        assert(b@ == frame);
        assert(frame[7 + 4 * k] == right_led(k));
        assert forall|c: int| 0 <= c < 3 implies b@[7 + 4 * k + 1 + c] == colors[k]@[c] / 4 by {
            assert(frame[7 + 4 * k + 1 + c] == (colors[(4 * k + 1 + c) / 4]@[(4 * k + 1 + c) % 4 - 1] / 4) as u8);
            assert((4 * k + 1 + c) / 4 == k && (4 * k + 1 + c) % 4 == 1 + c) by (nonlinear_arith)
                requires
                    0 <= c < 3,
                    0 <= k,
            ;
        }
        let code = right as int;
        vstd::arithmetic::div_mod::lemma_fundamental_div_mod_converse(code, 10, 8 - k, 9);
        assert(([176u8, right, velocity, extra])@[1] == right);
        assert((4 * k) % 4 == 0 && (4 * k) / 4 == k) by (nonlinear_arith)
            requires
                0 <= k,
        ;
    }
    if features.lights_palette(colors, Ok(e)) {
        let b = e->SysEx_0;
        let frame = lighting_frame(colors, |i: int| bottom_led(i));
        assert(b@ == frame);
        assert((4 * k) % 4 == 0 && (4 * k) / 4 == k) by (nonlinear_arith)
            requires
                0 <= k,
        ;
        assert(frame[7 + 4 * k] == bottom_led(k));
        assert forall|c: int| 0 <= c < 3 implies b@[7 + 4 * k + 1 + c] == colors[k]@[c] / 4 by {
            assert((4 * k + 1 + c) / 4 == k && (4 * k + 1 + c) % 4 == 1 + c) by (nonlinear_arith)
                requires
                    0 <= c < 3,
                    0 <= k,
            ;
        }
        assert(([176u8, bottom, velocity, extra])@[1] == bottom);
    }
}

} // verus!
