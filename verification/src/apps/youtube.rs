//! An application that plays the videos of a YouTube playlist, one pad per video.
use vstd::prelude::*;

use super::spotify::render::{draw_logo, logo_bytes};
use super::In;
use crate::image::Image;
use crate::midi::devices::DeviceFeatures;
use crate::midi::Event;
use crate::midi::features::IndexSelector;
use crate::server::Command;

verus! {

pub const NAME: &'static str = "youtube";

pub const COLOR: [u8; 3] = [255, 0, 0];

/// How long, in milliseconds, the application ignores events after it acted on one.
pub const DELAY_MS: u64 = 5000;

/// The playlist to play, and the key of the API to read it with.
#[derive(Clone, Debug)]
pub struct Config {
    pub api_key: String,
    pub playlist_id: String,
}

impl Config {
    /// A copy of this configuration.
    pub fn duplicate(&self) -> (r: Config)
        ensures
            r == *self,
    {
        Config { api_key: self.api_key.clone(), playlist_id: self.playlist_id.clone() }
    }
}

#[derive(Clone, Debug, PartialEq)]
pub struct PlaylistItemSnippetResourceId {
    pub video_id: String,
}

#[derive(Clone, Debug, PartialEq)]
pub struct PlaylistItemSnippet {
    pub title: String,
    pub resource_id: PlaylistItemSnippetResourceId,
}

#[derive(Clone, Debug, PartialEq)]
pub struct PlaylistItem {
    pub snippet: PlaylistItemSnippet,
}

/// A page of the items of a playlist, and the token of the next page, if any.
#[derive(Clone, Debug, PartialEq)]
pub struct Playlist {
    pub items: Vec<PlaylistItem>,
    pub next_page_token: Option<String>,
}

/// Appends the items of `page` to those of the previous pages; the result is the token of
/// the next page to fetch, or none when `page` was the last one.
pub fn accumulate_page(all_items: &mut Vec<PlaylistItem>, page: Playlist) -> (r: Option<String>)
    ensures
        final(all_items)@ == old(all_items)@ + page.items@,
        r == page.next_page_token,
{
    let Playlist { items, next_page_token } = page;
    let mut items = items;
    all_items.append(&mut items);
    next_page_token
}

/// Whether the pixel `(x, y)` of the YouTube logo is white (the others are red): a triangle
/// pointing right.
pub open spec fn youtube_logo_white(x: int, y: int) -> bool {
    ||| (y == 1 || y == 6) && x == 3
    ||| (y == 2 || y == 5) && 3 <= x <= 4
    ||| (y == 3 || y == 4) && 3 <= x <= 5
}

/// The YouTube logo: a white triangle on red.
pub open spec fn youtube_logo() -> Seq<u8> {
    logo_bytes(|x: int, y: int| youtube_logo_white(x, y), seq![255u8, 255, 255], seq![255u8, 0, 0])
}

/// The YouTube logo.
pub fn get_logo() -> (r: Image)
    ensures
        r.width == 8,
        r.height == 8,
        r.bytes@ == youtube_logo(),
{
    let mut white: Vec<bool> = Vec::with_capacity(64);
    let mut k: usize = 0;
    while k < 64
        invariant
            k <= 64,
            white@.len() == k,
            forall|j: int| 0 <= j < k ==> white@[j] == youtube_logo_white(j % 8, j / 8),
        decreases 64 - k,
    {
        let x = k % 8;
        let y = k / 8;
        let w = ((y == 1 || y == 6) && x == 3) || ((y == 2 || y == 5) && 3 <= x && x <= 4) || ((y
            == 3 || y == 4) && 3 <= x && x <= 5);
        white.push(w);
        k = k + 1;
    }
    let logo = draw_logo(
        &white,
        [255u8, 255, 255],
        [255u8, 0, 0],
        Ghost(|x: int, y: int| youtube_logo_white(x, y)),
    );
    assert(logo.bytes@ =~= youtube_logo());
    logo
}

/// What the application does with an event.
#[derive(Clone, Debug, PartialEq)]
pub enum YoutubeDecision {
    /// The pad of the video playing was pressed: ask the web player to pause.
    Pause,
    /// Ask the web player to play the video `video_id` of index `index`, then pull the
    /// playlist again.
    Play { index: usize, video_id: String },
    /// No video has the index of the pad pressed: pull the playlist again.
    Missing { index: usize },
    /// The event designates no pad: pull the playlist again.
    Refresh,
    /// The web player paused: nothing plays any more.
    Stopped,
    /// Nothing to do.
    Ignore,
}

/// What the application knows: the items of the playlist, and the index of the video
/// playing.
pub struct YoutubeState {
    pub items: Vec<PlaylistItem>,
    pub playing: Option<usize>,
}

/// The decision that `event` leads to, given the items and the video playing.
pub open spec fn youtube_decision(items: Seq<PlaylistItem>, playing: Option<usize>, features: DeviceFeatures, event: In, r: YoutubeDecision) -> bool {
    match event {
        In::Midi(e) => match features.index_of(e) {
            Some(index) => if playing == Some(index) {
                r == YoutubeDecision::Pause
            } else if index < items.len() {
                r == YoutubeDecision::Play {
                    index,
                    video_id: items[index as int].snippet.resource_id.video_id,
                }
            } else {
                r == YoutubeDecision::Missing { index }
            },
            None => r == YoutubeDecision::Refresh,
        },
        In::Server(Command::YoutubePause) => r == YoutubeDecision::Stopped,
        In::Server(_) => r == YoutubeDecision::Ignore,
    }
}

impl YoutubeState {
    /// No items yet, nothing playing.
    pub fn new() -> (r: YoutubeState)
        ensures
            r.items@.len() == 0,
            r.playing is None,
    {
        YoutubeState { items: Vec::new(), playing: None }
    }

    /// Decides what `event` leads to; a pause of the web player means that nothing plays any
    /// more.
    pub fn handle_event(&mut self, features: &DeviceFeatures, event: &In) -> (r: YoutubeDecision)
        ensures
            youtube_decision(old(self).items@, old(self).playing, *features, *event, r),
            final(self).items@ == old(self).items@,
            r == YoutubeDecision::Stopped ==> final(self).playing is None,
            r != YoutubeDecision::Stopped ==> final(self).playing == old(self).playing,
    {
        match event {
            In::Midi(e) => match features.into_index(e.duplicate()) {
                Ok(Some(index)) => {
                    if self.playing == Some(index) {
                        YoutubeDecision::Pause
                    } else if index < self.items.len() {
                        YoutubeDecision::Play {
                            index,
                            video_id: self.items[index].snippet.resource_id.video_id.clone(),
                        }
                    } else {
                        YoutubeDecision::Missing { index }
                    }
                },
                _ => YoutubeDecision::Refresh,
            },
            In::Server(Command::YoutubePause) => {
                self.playing = None;
                YoutubeDecision::Stopped
            },
            In::Server(_) => YoutubeDecision::Ignore,
        }
    }

    /// Records that the web player was asked to play the video of `index`.
    pub fn confirm_play(&mut self, index: usize)
        ensures
            final(self).playing == Some(index),
            final(self).items@ == old(self).items@,
    {
        self.playing = Some(index);
    }

    /// Replaces the items with those just pulled.
    pub fn store_items(&mut self, items: Vec<PlaylistItem>)
        ensures
            final(self).items@ == items@,
            final(self).playing == old(self).playing,
    {
        self.items = items;
    }
}

/// Whether an event is handled after `elapsed_ms` milliseconds since the last action: events
/// coming faster than the delay are ignored.
pub fn accepts_event(elapsed_ms: u64) -> (r: bool)
    ensures
        r <==> elapsed_ms > DELAY_MS,
{
    elapsed_ms > DELAY_MS
}


/// A pad toggles its video: pressed while another video (or none) plays, it plays the video
/// of its index, when the playlist has one; pressed again once that video plays, it pauses
/// it. A pause of the web player stops, and the other commands change nothing.
pub proof fn pads_toggle_their_video(
    items: Seq<PlaylistItem>,
    playing: Option<usize>,
    features: DeviceFeatures,
    e: Event,
    first: YoutubeDecision,
    second: YoutubeDecision,
)
    requires
        features.index_of(e) is Some,
        features.index_of(e).unwrap() < items.len(),
        playing != features.index_of(e),
        youtube_decision(items, playing, features, In::Midi(e), first),
        youtube_decision(items, features.index_of(e), features, In::Midi(e), second),
    ensures
        first matches YoutubeDecision::Play { index, video_id } && index == features.index_of(e).unwrap()
            && video_id == items[index as int].snippet.resource_id.video_id,
        second == YoutubeDecision::Pause,
        forall|r: YoutubeDecision|
            youtube_decision(items, playing, features, In::Server(Command::YoutubePause), r) ==> r
                == YoutubeDecision::Stopped,
        forall|r: YoutubeDecision|
            youtube_decision(items, playing, features, In::Server(Command::SpotifyPause), r) ==> r
                == YoutubeDecision::Ignore,
{
}

} // verus!
