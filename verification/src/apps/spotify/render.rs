//! What the Spotify application shows on the output device.
use vstd::prelude::*;

use super::client::{cover_url, cover_url_of, SpotifyTrack};
use super::playback::{PlaybackState, State};
use crate::image::Image;
use crate::midi::devices::DeviceFeatures;
use crate::midi::features::{ImageRenderer, IndexSelector, R};
use crate::midi::Event;

verus! {

/// Whether the pixel `(x, y)` of the Spotify logo is white (the others are green).
pub open spec fn spotify_logo_white(x: int, y: int) -> bool {
    ||| (y == 1 || y == 3 || y == 5) && 2 <= x <= 5
    ||| (y == 2 || y == 4 || y == 6) && (x == 1 || x == 6)
}

/// The bytes of an 8×8 logo whose pixel `(x, y)` is `on` where `white(x, y)` holds and `off`
/// elsewhere.
pub open spec fn logo_bytes(white: spec_fn(int, int) -> bool, on: Seq<u8>, off: Seq<u8>) -> Seq<u8> {
    Seq::new(
        192,
        |i: int|
            if white((i / 3) % 8, (i / 3) / 8) {
                on[i % 3]
            } else {
                off[i % 3]
            },
    )
}

/// The Spotify logo: three white arcs on green.
pub open spec fn spotify_logo() -> Seq<u8> {
    logo_bytes(|x: int, y: int| spotify_logo_white(x, y), seq![255u8, 255, 255], seq![0u8, 255, 0])
}

/// An 8×8 logo drawn pixel by pixel with `on` where `white` holds and `off` elsewhere.
pub(crate) fn draw_logo(white: &Vec<bool>, on: [u8; 3], off: [u8; 3], Ghost(shape): Ghost<spec_fn(int, int) -> bool>) -> (r: Image)
    requires
        white@.len() == 64,
        forall|k: int| 0 <= k < 64 ==> white@[k] == shape(k % 8, k / 8),
    ensures
        r.width == 8,
        r.height == 8,
        r.bytes@ == logo_bytes(shape, on@, off@),
{
    let mut bytes: Vec<u8> = Vec::with_capacity(192);
    let mut k: usize = 0;
    while k < 64
        invariant
            k <= 64,
            white@.len() == 64,
            forall|j: int| 0 <= j < 64 ==> white@[j] == shape(j % 8, j / 8),
            bytes@ == logo_bytes(shape, on@, off@).take(3 * k as int),
        decreases 64 - k,
    {
        let color = if white[k] { on } else { off };
        bytes.push(color[0]);
        bytes.push(color[1]);
        bytes.push(color[2]);
        proof {
            let target = logo_bytes(shape, on@, off@);
            assert((3 * k as int) / 3 == k && (3 * k as int) % 3 == 0);
            assert((3 * k as int + 1) / 3 == k && (3 * k as int + 1) % 3 == 1);
            assert((3 * k as int + 2) / 3 == k && (3 * k as int + 2) % 3 == 2);
            assert(bytes@ =~= target.take(3 * (k + 1)));
        }
        k = k + 1;
    }
    assert(logo_bytes(shape, on@, off@).take(192) =~= logo_bytes(shape, on@, off@));
    Image { width: 8, height: 8, bytes }
}

/// The Spotify logo.
pub fn get_logo() -> (r: Image)
    ensures
        r.width == 8,
        r.height == 8,
        r.bytes@ == spotify_logo(),
{
    let mut white: Vec<bool> = Vec::with_capacity(64);
    let mut k: usize = 0;
    while k < 64
        invariant
            k <= 64,
            white@.len() == k,
            forall|j: int| 0 <= j < k ==> white@[j] == spotify_logo_white(j % 8, j / 8),
        decreases 64 - k,
    {
        let x = k % 8;
        let y = k / 8;
        let w = ((y == 1 || y == 3 || y == 5) && 2 <= x && x <= 5) || ((y == 2 || y == 4 || y == 6)
            && (x == 1 || x == 6));
        white.push(w);
        k = k + 1;
    }
    let logo = draw_logo(
        &white,
        [255u8, 255, 255],
        [0u8, 255, 0],
        Ghost(|x: int, y: int| spotify_logo_white(x, y)),
    );
    assert(logo.bytes@ =~= spotify_logo());
    logo
}

/// The Spotify logo, under the name the task-based player knows it by.
pub fn get_spotify_logo() -> (r: Image)
    ensures
        r.width == 8,
        r.height == 8,
        r.bytes@ == spotify_logo(),
{
    get_logo()
}

/// What to render after the player changed.
#[derive(Clone, Copy, Debug, PartialEq, Eq)]
pub enum RenderAction {
    /// Nothing changed since the last rendering.
    Nothing,
    /// Render the logo and the highlighted index.
    State,
    /// Render the cover of the requested track, then the logo and the highlighted index.
    CoverThenState,
}

/// What rendering the state gives when the player is in `playback` and the index `rendered`
/// was rendered last: the action, and the index rendered from then on.
pub open spec fn render_decision(playback: PlaybackState, rendered: Option<usize>) -> (RenderAction, Option<usize>) {
    match playback {
        PlaybackState::PAUSED | PlaybackState::PAUSING => if rendered is Some {
            (RenderAction::State, None)
        } else {
            (RenderAction::Nothing, rendered)
        },
        PlaybackState::REQUESTED(index) => if rendered != Some(index) {
            (RenderAction::CoverThenState, Some(index))
        } else {
            (RenderAction::Nothing, rendered)
        },
        PlaybackState::PLAYING(index) => if rendered != Some(index) {
            (RenderAction::State, Some(index))
        } else {
            (RenderAction::Nothing, rendered)
        },
    }
}

/// Decides what to render: the state changes are rendered once each.
pub fn render_step(playback: PlaybackState, rendered: Option<usize>) -> (r: (RenderAction, Option<usize>))
    ensures
        r == render_decision(playback, rendered),
{
    match playback {
        PlaybackState::PAUSED | PlaybackState::PAUSING => if rendered.is_some() {
            (RenderAction::State, None)
        } else {
            (RenderAction::Nothing, rendered)
        },
        PlaybackState::REQUESTED(index) => if rendered != Some(index) {
            (RenderAction::CoverThenState, Some(index))
        } else {
            (RenderAction::Nothing, rendered)
        },
        PlaybackState::PLAYING(index) => if rendered != Some(index) {
            (RenderAction::State, Some(index))
        } else {
            (RenderAction::Nothing, rendered)
        },
    }
}

/// A requested track that is not the one rendered last gets its cover rendered, then the
/// state, whatever was rendered before; from then on that track is the one rendered.
pub proof fn a_newly_requested_track_gets_its_cover(index: usize, rendered: Option<usize>)
    requires
        rendered != Some(index),
    ensures
        render_decision(PlaybackState::REQUESTED(index), rendered) == (RenderAction::CoverThenState, Some(
            index,
        )),
{
}

/// Rendering follows the player: afterwards the highlighted track is the one rendered;
/// nothing is rendered exactly when it already was; a cover is only rendered for a requested
/// track, and a track that starts playing without having been requested gets the state
/// rendered.
pub proof fn rendering_follows_the_player(playback: PlaybackState, rendered: Option<usize>)
    ensures
        render_decision(playback, rendered).1 == highlighted(playback),
        render_decision(playback, rendered).0 == RenderAction::Nothing <==> rendered == highlighted(
            playback,
        ),
        render_decision(playback, rendered).0 == RenderAction::CoverThenState ==> playback is REQUESTED,
        playback is PLAYING && rendered != highlighted(playback) ==> render_decision(playback, rendered).0
            == RenderAction::State,
        playback is REQUESTED && rendered != highlighted(playback) ==> render_decision(
            playback,
            rendered,
        ).0 == RenderAction::CoverThenState,
{
}

/// A state is rendered once: rendering again while the player stays as it is does nothing.
pub proof fn rendering_twice_renders_once(playback: PlaybackState, rendered: Option<usize>)
    ensures
        render_decision(playback, render_decision(playback, rendered).1).0 == RenderAction::Nothing,
        render_decision(playback, render_decision(playback, rendered).1).1 == render_decision(
            playback,
            rendered,
        ).1,
{
}

/// The index to highlight: the track asked for or playing.
pub fn highlighted_index(playback: PlaybackState) -> (r: Option<usize>)
    ensures
        r == highlighted(playback),
{
    match playback {
        PlaybackState::REQUESTED(i) | PlaybackState::PLAYING(i) => Some(i),
        _ => None,
    }
}

/// The pad highlighted while the player is in `playback`: that of the track asked for or
/// playing.
pub open spec fn highlighted(playback: PlaybackState) -> Option<usize> {
    match playback {
        PlaybackState::REQUESTED(i) => Some(i),
        PlaybackState::PLAYING(i) => Some(i),
        _ => None,
    }
}

/// The event that the outcome `out` of a rendering sends: none when the rendering failed.
pub open spec fn sent(out: R<Event>) -> Seq<Event> {
    match out {
        Ok(e) => seq![e],
        Err(_) => Seq::empty(),
    }
}

/// The events that show the state of the player on a device with `features`: the Spotify
/// logo, then the highlighted pad when a track is requested or playing; what the device
/// cannot show is left out.
pub fn state_events(features: &DeviceFeatures, playback: PlaybackState) -> (r: Vec<Event>)
    ensures
        exists|logo: Image, logo_out: R<Event>|
            logo.width == 8 && logo.height == 8 && logo.bytes@ == spotify_logo()
                && #[trigger] features.renders_image(logo, logo_out) && match highlighted(playback) {
                Some(i) => exists|out: R<Event>|
                    #[trigger] features.highlights(i, out) && r@ == sent(logo_out) + sent(out),
                None => r@ == sent(logo_out),
            },
{
    let mut events: Vec<Event> = Vec::new();
    let logo = get_logo();
    let ghost logo_view = logo;
    let logo_out = features.from_image(logo);
    let ghost logo_sent = logo_out;
    match logo_out {
        Ok(e) => events.push(e),
        Err(_) => {},
    }
    assert(events@ =~= sent(logo_sent));
    assert(features.renders_image(logo_view, logo_sent));
    if let Some(index) = highlighted_index(playback) {
        let out = features.from_index_to_highlight(index);
        let ghost out_sent = out;
        match out {
            Ok(e) => events.push(e),
            Err(_) => {},
        }
        assert(events@ =~= sent(logo_sent) + sent(out_sent));
        assert(features.highlights(index, out_sent));
    }
    assert(features.renders_image(logo_view, logo_sent));
    events
}

/// The track whose cover to render: the one asked for or playing.
pub open spec fn cover_track(state: State) -> Option<SpotifyTrack> {
    match state.playback {
        PlaybackState::REQUESTED(i) => match state.tracks {
            Some(t) => Some(t@[i as int]),
            None => None,
        },
        PlaybackState::PLAYING(i) => match state.tracks {
            Some(t) => Some(t@[i as int]),
            None => None,
        },
        _ => None,
    }
}

/// The URL of the cover to render, or none to render the logo instead: none when nothing is
/// asked for or playing, or when the track has no cover.
pub fn cover_to_render(state: &State) -> (r: Option<String>)
    requires
        match (state.playback, state.tracks) {
            (PlaybackState::REQUESTED(i), Some(t)) => i < t@.len(),
            (PlaybackState::PLAYING(i), Some(t)) => i < t@.len(),
            _ => true,
        },
    ensures
        match cover_track(*state) {
            Some(track) => match r {
                Some(url) => cover_url_of(track) == Some(url@),
                None => cover_url_of(track) is None,
            },
            None => r is None,
        },
{
    let index = match state.playback {
        PlaybackState::REQUESTED(i) | PlaybackState::PLAYING(i) => i,
        _ => {
            return None;
        },
    };
    match &state.tracks {
        Some(tracks) => cover_url(&tracks[index]),
        None => None,
    }
}

} // verus!
