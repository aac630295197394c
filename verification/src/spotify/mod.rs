//! Playing the tracks of a Spotify playlist through tasks: what a task asks, and which track
//! it plays.
use vstd::prelude::*;

pub mod authorization;

use crate::server::Command;

verus! {

/// What a task of the player emits: a command for the web player or an event.
#[derive(Clone, Debug)]
pub enum Out<E> {
    Command(Command),
    Event(E),
}

/// The playlist to play, and how to get access to it.
#[derive(Clone, Debug)]
pub struct Config {
    pub authorization: authorization::SpotifyAuthorizationConfig,
    pub playlist_id: String,
}

/// What a task asks of the player.
#[derive(Clone, Debug)]
pub enum SpotifyAction {
    Play { index: usize },
    Pause,
}

/// A task for the player: an action, the access token to act with, and the playlist.
#[derive(Clone, Debug)]
pub struct SpotifyTask {
    pub action: SpotifyAction,
    pub token: String,
    pub playlist_id: String,
}

/// A track of a playlist.
#[derive(Clone, Debug)]
pub struct SpotifyTrack {
    pub id: String,
    pub name: String,
    pub uri: String,
}

#[derive(Clone, Debug)]
pub struct SpotifyPlaylistItem {
    pub track: SpotifyTrack,
}

#[derive(Clone, Debug)]
pub struct SpotifyPlaylistResponse {
    pub href: String,
    pub items: Vec<SpotifyPlaylistItem>,
}

/// The tracks of a playlist, in its order.
pub fn playlist_tracks(response: &SpotifyPlaylistResponse) -> (r: Vec<SpotifyTrack>)
    ensures
        r@.len() == response.items@.len(),
        forall|i: int| 0 <= i < r@.len() ==> #[trigger] r@[i] == response.items@[i].track,
{
    let mut tracks: Vec<SpotifyTrack> = Vec::with_capacity(response.items.len());
    let mut k: usize = 0;
    while k < response.items.len()
        invariant
            k <= response.items@.len(),
            tracks@.len() == k,
            forall|i: int| 0 <= i < k ==> #[trigger] tracks@[i] == response.items@[i].track,
        decreases response.items@.len() - k,
    {
        let track = &response.items[k].track;
        tracks.push(SpotifyTrack { id: track.id.clone(), name: track.name.clone(), uri: track.uri.clone() });
        k = k + 1;
    }
    tracks
}

/// The URI of the track to play for the index `index`, or none when the playlist has no such
/// track.
pub fn start_or_resume_index(tracks: &Vec<SpotifyTrack>, index: usize) -> (r: Option<String>)
    ensures
        index < tracks@.len() ==> r == Some(tracks@[index as int].uri),
        index >= tracks@.len() ==> r is None,
{
    if index < tracks.len() {
        Some(tracks[index].uri.clone())
    } else {
        None
    }
}

} // verus!
