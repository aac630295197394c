//! The commands exchanged with the web player.
use vstd::prelude::*;

verus! {

/// A command for the web player, or one that the web player sends back.
#[derive(Clone, Debug, PartialEq)]
pub enum Command {
    SpotifyPlay { track_id: String, access_token: String },
    SpotifyPause,
    SpotifyToken { access_token: String },
    YoutubePlay { video_id: String },
    YoutubePause,
}

impl Command {
    /// A copy of this command.
    pub fn duplicate(&self) -> (r: Command)
        ensures
            r == *self,
    {
        match self {
            Command::SpotifyPlay { track_id, access_token } => Command::SpotifyPlay {
                track_id: track_id.clone(),
                access_token: access_token.clone(),
            },
            Command::SpotifyPause => Command::SpotifyPause,
            Command::SpotifyToken { access_token } => Command::SpotifyToken {
                access_token: access_token.clone(),
            },
            Command::YoutubePlay { video_id } => Command::YoutubePlay { video_id: video_id.clone() },
            Command::YoutubePause => Command::YoutubePause,
        }
    }
}

} // verus!
