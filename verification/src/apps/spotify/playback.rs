//! What the Spotify application knows of the player, and what it decides to do with it.
use vstd::prelude::*;

use super::client::{SpotifyApiError, SpotifyApiResult, SpotifyPlaybackState, SpotifyTrack};
use super::DELAY_MS;
use crate::apps::In;
use crate::midi::devices::DeviceFeatures;
use crate::midi::features::IndexSelector;
use crate::server::Command;
use vstd::string::StringExecFns;

verus! {

/// Where the player stands, as far as the application knows.
#[derive(Clone, Copy, Debug, PartialEq, Eq)]
pub enum PlaybackState {
    PAUSED,
    PAUSING,
    /// The track of this index was asked for.
    REQUESTED(usize),
    /// The track of this index is playing.
    PLAYING(usize),
}

/// The state that the tasks of the application share.
pub struct State {
    pub access_token: Option<String>,
    pub tracks: Option<Vec<SpotifyTrack>>,
    pub playback: PlaybackState,
    /// The index of the track that the player reported playing at the last poll.
    pub playing: Option<usize>,
    /// The player device to play on; none lets Spotify pick the active one.
    pub device_id: Option<String>,
}

/// What the application asks of the player after a pad was pressed.
#[derive(Clone, Debug, PartialEq)]
pub enum PlaybackAction {
    /// Hand the token to the web player, then play the track `uri` on the device
    /// `device_id`, if one is set.
    Play { index: usize, uri: String, access_token: String, device_id: Option<String> },
    /// Pause the player.
    Pause { access_token: String },
    /// Nothing to do: no track has that index.
    Ignore,
}

/// Whether pressing the pad of `index` pauses the player: the track of that index is the one
/// asked for or playing.
pub open spec fn pauses(playback: PlaybackState, index: usize) -> bool {
    match playback {
        PlaybackState::REQUESTED(i) => i == index,
        PlaybackState::PLAYING(i) => i == index,
        _ => false,
    }
}

/// The index of the track that the player plays, if it is one of `tracks`: the first track
/// with the same identifier.
pub open spec fn is_first_with_id(tracks: Seq<SpotifyTrack>, id: Seq<char>, r: Option<usize>) -> bool {
    match r {
        Some(i) => i < tracks.len() && tracks[i as int].id@ == id && forall|j: int|
            0 <= j < i ==> (#[trigger] tracks[j]).id@ != id,
        None => forall|j: int| 0 <= j < tracks.len() ==> (#[trigger] tracks[j]).id@ != id,
    }
}

/// Whether `r` is the index, among `tracks`, of the track that `playback` reports playing.
pub open spec fn playing_index(playback: Option<SpotifyPlaybackState>, tracks: Option<Vec<SpotifyTrack>>, r: Option<usize>) -> bool {
    match (playback, tracks) {
        (Some(p), Some(t)) => if p.is_playing {
            is_first_with_id(t@, p.item.id@, r)
        } else {
            r is None
        },
        _ => r is None,
    }
}

/// Where a call that needs an access token starts.
#[derive(Clone, Debug, PartialEq)]
pub enum TokenAttempt {
    /// With the token in memory.
    Stored(String),
    /// With a fresh token, there being none in memory.
    Refresh,
}

impl State {
    /// Tracks are only known, and a track only asked for, with an access token.
    pub open spec fn wf(&self) -> bool {
        &&& self.tracks is Some ==> self.access_token is Some
        &&& (self.playback is REQUESTED || self.playback is PLAYING) ==> self.access_token is Some
    }

    /// Whether tracks are only known, and a track only asked for, with an access token,
    /// computed.
    pub fn is_well_formed(&self) -> (r: bool)
        ensures
            r == self.wf(),
    {
        let asked = match self.playback {
            PlaybackState::REQUESTED(_) | PlaybackState::PLAYING(_) => true,
            _ => false,
        };
        (self.tracks.is_none() || self.access_token.is_some()) && (!asked || self.access_token.is_some())
    }

    /// Nothing known yet: no token, no tracks, the player paused.
    pub fn new() -> (r: State)
        ensures
            r.wf(),
            r.access_token is None,
            r.tracks is None,
            r.playback == PlaybackState::PAUSED,
            r.playing is None,
            r.device_id is None,
    {
        State {
            access_token: None,
            tracks: None,
            playback: PlaybackState::PAUSED,
            playing: None,
            device_id: None,
        }
    }

    /// Decides what pressing the pad of `index` does: pause the player if that track is the
    /// one asked for or playing, else play the track of that index, if there is one.
    pub fn play_or_pause(&mut self, index: usize) -> (r: PlaybackAction)
        requires
            old(self).wf(),
        ensures
            final(self).wf(),
            final(self).access_token == old(self).access_token,
            final(self).tracks == old(self).tracks,
            final(self).playing == old(self).playing,
            final(self).device_id == old(self).device_id,
            pauses(old(self).playback, index) ==> {
                &&& r == PlaybackAction::Pause { access_token: old(self).access_token.unwrap() }
                &&& final(self).playback == PlaybackState::PAUSING
            },
            !pauses(old(self).playback, index) ==> match old(self).tracks {
                Some(t) => if index < t@.len() {
                    &&& r == PlaybackAction::Play {
                        index,
                        uri: t@[index as int].uri,
                        access_token: old(self).access_token.unwrap(),
                        device_id: old(self).device_id,
                    }
                    &&& final(self).playback == PlaybackState::REQUESTED(index)
                } else {
                    r == PlaybackAction::Ignore && final(self).playback == old(self).playback
                },
                None => r == PlaybackAction::Ignore && final(self).playback == old(self).playback,
            },
    {
        let pause = match self.playback {
            PlaybackState::REQUESTED(i) => i == index,
            PlaybackState::PLAYING(i) => i == index,
            _ => false,
        };
        if pause {
            let access_token = self.access_token.as_ref().unwrap().clone();
            self.playback = PlaybackState::PAUSING;
            return PlaybackAction::Pause { access_token };
        }
        let uri = match &self.tracks {
            Some(tracks) => if index < tracks.len() {
                Some(tracks[index].uri.clone())
            } else {
                None
            },
            None => None,
        };
        match uri {
            Some(uri) => {
                let access_token = self.access_token.as_ref().unwrap().clone();
                self.playback = PlaybackState::REQUESTED(index);
                let device_id = self.device_id.clone();
                PlaybackAction::Play { index, uri, access_token, device_id }
            },
            None => PlaybackAction::Ignore,
        }
    }

    /// Where a call that needs an access token starts: with the token in memory, if any.
    pub fn first_token_attempt(&self) -> (r: TokenAttempt)
        ensures
            match self.access_token {
                Some(t) => r == TokenAttempt::Stored(t),
                None => r == TokenAttempt::Refresh,
            },
    {
        match &self.access_token {
            Some(t) => TokenAttempt::Stored(t.clone()),
            None => TokenAttempt::Refresh,
        }
    }

    /// Keeps the fresh access token `token` in memory.
    pub fn store_access_token(&mut self, token: String)
        requires
            old(self).wf(),
        ensures
            final(self).wf(),
            final(self).access_token == Some(token),
            final(self).tracks == old(self).tracks,
            final(self).playback == old(self).playback,
            final(self).playing == old(self).playing,
            final(self).device_id == old(self).device_id,
    {
        self.access_token = Some(token);
    }

    /// Keeps the tracks of the playlist in memory; they were pulled with the token in memory.
    pub fn store_tracks(&mut self, tracks: Vec<SpotifyTrack>)
        requires
            old(self).wf(),
            old(self).access_token is Some,
        ensures
            final(self).wf(),
            final(self).tracks == Some(tracks),
            final(self).access_token == old(self).access_token,
            final(self).playback == old(self).playback,
            final(self).playing == old(self).playing,
            final(self).device_id == old(self).device_id,
    {
        self.tracks = Some(tracks);
    }

    /// Records what the last poll of the player reported.
    pub fn record_playing(&mut self, currently_playing: Option<usize>)
        requires
            old(self).wf(),
        ensures
            final(self).wf(),
            final(self).playing == currently_playing,
            final(self).access_token == old(self).access_token,
            final(self).tracks == old(self).tracks,
            final(self).playback == old(self).playback,
            final(self).device_id == old(self).device_id,
    {
        if self.playing != currently_playing {
            self.playing = currently_playing;
        }
    }
}

/// Pressing the pad of a track asked for pauses it, and pressing a pad again after a pause
/// asks for its track again: the pads toggle.
pub proof fn pads_toggle_the_playback(index: usize)
    ensures
        pauses(PlaybackState::REQUESTED(index), index),
        pauses(PlaybackState::PLAYING(index), index),
        !pauses(PlaybackState::PAUSING, index),
        !pauses(PlaybackState::PAUSED, index),
{
}

/// Whether a call that needs an access token fetches a fresh token, then is made once more
/// with it: there was no token in memory, or the call made with the stored token (whose
/// outcome is `result`; it is not looked at when there was no token) was refused. Otherwise
/// `result` is the outcome.
pub fn needs_fresh_token<A>(attempt: &TokenAttempt, result: &SpotifyApiResult<A>) -> (r: bool)
    ensures
        r <==> (attempt is Refresh || *result matches Err(SpotifyApiError::Unauthorized)),
{
    match (attempt, result) {
        (TokenAttempt::Refresh, _) => true,
        (TokenAttempt::Stored(_), Err(SpotifyApiError::Unauthorized)) => true,
        _ => false,
    }
}

/// The index of the pad to play or pause for `event`, when the last action is older than the
/// delay: events coming too fast are ignored.
pub fn event_to_play(features: &DeviceFeatures, elapsed_ms: u64, event: &In) -> (r: Option<usize>)
    ensures
        elapsed_ms <= DELAY_MS ==> r is None,
        elapsed_ms > DELAY_MS ==> r == match event {
            In::Midi(e) => features.index_of(*e),
            In::Server(_) => None,
        },
{
    if elapsed_ms <= DELAY_MS {
        return None;
    }
    match event {
        In::Midi(e) => match features.into_index(e.duplicate()) {
            Ok(Some(index)) => Some(index),
            _ => None,
        },
        In::Server(_) => None,
    }
}

/// The address that starts or resumes the playback, on the device `device_id` when one is
/// set.
pub open spec fn play_url_of(device_id: Option<Seq<char>>) -> Seq<char> {
    "https://api.spotify.com/v1/me/player/play"@ + match device_id {
        Some(id) => "?device_id="@ + id,
        None => Seq::empty(),
    }
}

/// The address that starts or resumes the playback, on the device `device_id` when one is
/// set.
pub fn play_url(device_id: &Option<String>) -> (r: String)
    ensures
        r@ == play_url_of(
            match device_id {
                Some(id) => Some(id@),
                None => None,
            },
        ),
{
    let mut url = String::from_str("https://api.spotify.com/v1/me/player/play");
    if let Some(id) = device_id {
        url.append("?device_id=");
        url.append(id.as_str());
    }
    proof {
        reveal_strlit("https://api.spotify.com/v1/me/player/play");
        reveal_strlit("?device_id=");
    }
    url
}

/// The pad that `event`, coming at `now`, plays when the last action was at `last` (times in
/// milliseconds), and the time of the last action afterwards: only an event that designates a
/// pad more than the delay after the last action is acted on, and it becomes the last action.
pub open spec fn throttle_step(features: DeviceFeatures, last: int, now: int, event: In) -> (Option<usize>, int) {
    let index = if now - last > DELAY_MS {
        match event {
            In::Midi(e) => features.index_of(e),
            In::Server(_) => None,
        }
    } else {
        None
    };
    (index, if index is Some { now } else { last })
}

/// The events among `events` (each with the time it came) that get acted on when the last
/// action was at `last`, in order, each as its time and the pad it plays.
pub open spec fn throttled(features: DeviceFeatures, events: Seq<(int, In)>, last: int) -> Seq<(int, usize)>
    decreases events.len(),
{
    if events.len() == 0 {
        Seq::empty()
    } else {
        let (index, next_last) = throttle_step(features, last, events[0].0, events[0].1);
        let rest = throttled(features, events.drop_first(), next_last);
        match index {
            Some(i) => seq![(events[0].0, i)] + rest,
            None => rest,
        }
    }
}

/// Decides whether `event`, coming at `now_ms`, plays a pad, given the time `last_action_ms`
/// of the last action; gives the pad and the time of the last action afterwards.
pub fn throttle(features: &DeviceFeatures, last_action_ms: u64, now_ms: u64, event: &In) -> (r: (Option<usize>, u64))
    requires
        last_action_ms <= now_ms,
    ensures
        (r.0, r.1 as int) == throttle_step(*features, last_action_ms as int, now_ms as int, *event),
{
    let index = event_to_play(features, now_ms - last_action_ms, event);
    match index {
        Some(_) => (index, now_ms),
        None => (index, last_action_ms),
    }
}

/// However the events come, those acted on are more than the delay apart, and the first of
/// them more than the delay after the last action before them.
pub proof fn acted_on_events_are_more_than_the_delay_apart(features: DeviceFeatures, events: Seq<(int, In)>, last: int)
    ensures
        throttled(features, events, last).len() > 0 ==> throttled(features, events, last)[0].0 - last > DELAY_MS,
        forall|j: int|
            0 < j < throttled(features, events, last).len() ==> #[trigger] throttled(features, events, last)[j].0
                - throttled(features, events, last)[j - 1].0 > DELAY_MS,
    decreases events.len(),
{
    if events.len() > 0 {
        let (index, next_last) = throttle_step(features, last, events[0].0, events[0].1);
        let rest = throttled(features, events.drop_first(), next_last);
        acted_on_events_are_more_than_the_delay_apart(features, events.drop_first(), next_last);
        let h = throttled(features, events, last);
        match index {
            Some(i) => {
                assert(h == seq![(events[0].0, i)] + rest);
                assert forall|j: int| 0 < j < h.len() implies #[trigger] h[j].0 - h[j - 1].0 > DELAY_MS by {
                    assert(h[j] == rest[j - 1]);
                    if j > 1 {
                        assert(h[j - 1] == rest[j - 2]);
                    }
                }
            },
            None => {},
        }
    }
}

/// The index, among `tracks`, of the track that the player reports playing, if any.
pub fn currently_playing_index(playback: &Option<SpotifyPlaybackState>, tracks: &Option<Vec<SpotifyTrack>>) -> (r: Option<usize>)
    ensures
        playing_index(*playback, *tracks, r),
{
    match (playback, tracks) {
        (Some(p), Some(t)) => {
            if !p.is_playing {
                return None;
            }
            let mut i: usize = 0;
            while i < t.len()
                invariant
                    i <= t@.len(),
                    *playback == Some(*p),
                    *tracks == Some(*t),
                    p.is_playing,
                    forall|j: int| 0 <= j < i ==> (#[trigger] t@[j]).id@ != p.item.id@,
                decreases t@.len() - i,
            {
                if t[i].id == p.item.id {
                    return Some(i);
                }
                i = i + 1;
            }
            None
        },
        _ => None,
    }
}

/// The command that asks the web player to play the track of `index`, if there is one.
pub fn start_or_resume_command(access_token: &String, tracks: &Vec<SpotifyTrack>, index: usize) -> (r: Option<Command>)
    ensures
        index >= tracks@.len() ==> r is None,
        index < tracks@.len() ==> (r matches Some(Command::SpotifyPlay { track_id, access_token: token })
            && track_id@ == "spotify:track:"@ + tracks@[index as int].id@ && token == *access_token),
{
    if index >= tracks.len() {
        return None;
    }
    let mut track_id = String::from_str("spotify:track:");
    track_id.append(tracks[index].id.as_str());
    Some(Command::SpotifyPlay { track_id, access_token: access_token.clone() })
}

/// Whether pressing the pad of `index` pauses what plays, when the track of `playing` is the
/// one playing.
pub fn pauses_playing(playing: Option<usize>, index: usize) -> (r: bool)
    ensures
        r <==> playing == Some(index),
{
    match playing {
        Some(i) => i == index,
        None => false,
    }
}

} // verus!
