//! What the Spotify Web API answers, as plain values.
use vstd::prelude::*;

verus! {

/// What can go wrong when a task of the player calls the Spotify Web API.
#[derive(Clone, Copy, Debug, PartialEq, Eq)]
pub enum SpotifyError {
    ReqwestError,
    SerdeError,
    Unauthorized,
    Unknown,
}

/// What can go wrong when calling the Spotify Web API.
#[derive(Clone, Debug, PartialEq)]
pub enum SpotifyApiError {
    /// The access token was refused: it may have expired.
    Unauthorized,
    /// Any other failure, described.
    Other(String),
}

pub type SpotifyApiResult<A> = Result<A, SpotifyApiError>;

#[derive(Clone, Debug, PartialEq)]
pub struct SpotifyTokenResponse {
    pub access_token: String,
    pub token_type: String,
    pub scope: Option<String>,
    pub expires_in: i16,
    pub refresh_token: Option<String>,
}

#[derive(Clone, Debug, PartialEq)]
pub struct SpotifyAlbumImage {
    pub width: u16,
    pub height: u16,
    pub url: String,
}

#[derive(Clone, Debug, PartialEq)]
pub struct SpotifyAlbum {
    pub images: Vec<SpotifyAlbumImage>,
}

#[derive(Clone, Debug, PartialEq)]
pub struct SpotifyTrack {
    pub id: String,
    pub name: String,
    pub uri: String,
    pub album: SpotifyAlbum,
}

#[derive(Clone, Debug, PartialEq)]
pub struct SpotifyPlaylistResponse {
    pub href: String,
    pub items: Vec<SpotifyPlaylistItem>,
}

#[derive(Clone, Debug, PartialEq)]
pub struct SpotifyPlaylistItem {
    pub track: SpotifyTrack,
}

#[derive(Clone, Debug, PartialEq)]
pub struct SpotifyPlaybackState {
    pub is_playing: bool,
    pub item: SpotifyTrack,
}

/// Whether `a` and `b` describe the same track, field by field.
pub open spec fn same_track(a: SpotifyTrack, b: SpotifyTrack) -> bool {
    &&& a.id == b.id
    &&& a.name == b.name
    &&& a.uri == b.uri
    &&& a.album.images@ == b.album.images@
}

/// The URL of the last (the smallest) cover of `track`'s album, if it has one.
pub open spec fn cover_url_of(track: SpotifyTrack) -> Option<Seq<char>> {
    let images = track.album.images@;
    if images.len() == 0 {
        None
    } else {
        Some(images.last().url@)
    }
}

/// The URL of the last (the smallest) cover of `track`'s album, if it has one.
pub fn cover_url(track: &SpotifyTrack) -> (r: Option<String>)
    ensures
        match r {
            Some(url) => cover_url_of(*track) == Some(url@),
            None => cover_url_of(*track) is None,
        },
{
    let n = track.album.images.len();
    if n == 0 {
        None
    } else {
        Some(track.album.images[n - 1].url.clone())
    }
}

/// The tracks of a playlist, in its order.
pub fn playlist_tracks(response: &SpotifyPlaylistResponse) -> (r: Vec<SpotifyTrack>)
    ensures
        r@.len() == response.items@.len(),
        forall|i: int| 0 <= i < r@.len() ==> same_track(#[trigger] r@[i], response.items@[i].track),
{
    let mut tracks: Vec<SpotifyTrack> = Vec::with_capacity(response.items.len());
    let mut k: usize = 0;
    while k < response.items.len()
        invariant
            k <= response.items@.len(),
            tracks@.len() == k,
            forall|i: int| 0 <= i < k ==> same_track(#[trigger] tracks@[i], response.items@[i].track),
        decreases response.items@.len() - k,
    {
        tracks.push(response.items[k].track.duplicate());
        k = k + 1;
    }
    tracks
}

impl SpotifyAlbumImage {
    /// A copy of this image description.
    pub fn duplicate(&self) -> (r: SpotifyAlbumImage)
        ensures
            r == *self,
    {
        SpotifyAlbumImage { width: self.width, height: self.height, url: self.url.clone() }
    }
}

impl SpotifyTrack {
    /// A copy of this track.
    pub fn duplicate(&self) -> (r: SpotifyTrack)
        ensures
            same_track(r, *self),
    {
        let mut images: Vec<SpotifyAlbumImage> = Vec::with_capacity(self.album.images.len());
        let mut k: usize = 0;
        while k < self.album.images.len()
            invariant
                k <= self.album.images@.len(),
                images@ == self.album.images@.take(k as int),
            decreases self.album.images@.len() - k,
        {
            images.push(self.album.images[k].duplicate());
            proof {
                assert(images@ =~= self.album.images@.take(k + 1));
            }
            k = k + 1;
        }
        assert(self.album.images@.take(self.album.images@.len() as int) =~= self.album.images@);
        SpotifyTrack {
            id: self.id.clone(),
            name: self.name.clone(),
            uri: self.uri.clone(),
            album: SpotifyAlbum { images },
        }
    }
}

} // verus!
