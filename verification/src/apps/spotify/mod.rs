//! An application that plays the tracks of a Spotify playlist, one pad per track.
use vstd::prelude::*;

pub mod client;
pub mod playback;
pub mod render;

verus! {

pub const NAME: &'static str = "spotify";

pub const COLOR: [u8; 3] = [0, 255, 0];

/// How long, in milliseconds, the application ignores events after it acted on one.
pub const DELAY_MS: u64 = 5000;

/// How long, in seconds, the application waits between two pulls of the playlist.
pub const PLAYLIST_POLLING_INTERVAL_S: u64 = 600;

/// The playlist to play, and the credentials of the Spotify application used to play it.
#[derive(Clone, Debug)]
pub struct Config {
    pub playlist_id: String,
    pub client_id: String,
    pub client_secret: String,
    pub refresh_token: String,
}

impl Config {
    /// A copy of this configuration.
    pub fn duplicate(&self) -> (r: Config)
        ensures
            r == *self,
    {
        Config {
            playlist_id: self.playlist_id.clone(),
            client_id: self.client_id.clone(),
            client_secret: self.client_secret.clone(),
            refresh_token: self.refresh_token.clone(),
        }
    }
}

} // verus!
