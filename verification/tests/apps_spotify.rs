use midi_hub::apps::spotify::client::{
    cover_url, SpotifyAlbum, SpotifyAlbumImage, SpotifyApiError, SpotifyPlaybackState, SpotifyTrack,
};
use midi_hub::apps::spotify::playback::{
    currently_playing_index, event_to_play, needs_fresh_token, pauses_playing, play_url, start_or_resume_command,
    throttle,
    PlaybackAction, PlaybackState, State, TokenAttempt,
};
use midi_hub::apps::spotify::render::{
    cover_to_render, get_logo, highlighted_index, render_step, state_events, RenderAction,
};
use midi_hub::midi::devices::default::DefaultFeatures;
use midi_hub::midi::features::{ImageRenderer, IndexSelector};
use midi_hub::apps::In;
use midi_hub::midi::devices::launchpadpro::LaunchpadProFeatures;
use midi_hub::midi::devices::DeviceFeatures;
use midi_hub::midi::Event;
use midi_hub::server::Command;

fn lingus() -> SpotifyTrack {
    SpotifyTrack {
        name: "We Like It Here".to_string(),
        id: "68d6ZfyMUYURol2y15Ta2Y".to_string(),
        uri: "spotify:track:68d6ZfyMUYURol2y15Ta2Y".to_string(),
        album: SpotifyAlbum {
            images: vec![
                SpotifyAlbumImage { height: 640, width: 640, url: "https://i.scdn.co/image/ab67616d0000b273a29d1ada28cf3d9d5fe1972d".to_string() },
                SpotifyAlbumImage { height: 300, width: 300, url: "https://i.scdn.co/image/ab67616d00001e02a29d1ada28cf3d9d5fe1972d".to_string() },
                SpotifyAlbumImage { height: 64, width: 64, url: "https://i.scdn.co/image/ab67616d00004851a29d1ada28cf3d9d5fe1972d".to_string() },
            ],
        },
    }
}

fn conscious_club() -> SpotifyTrack {
    SpotifyTrack {
        name: "Conscious Club".to_string(),
        id: "5vmFVIJV9XN1l01YsFuKL3".to_string(),
        uri: "spotify:track:5vmFVIJV9XN1l01YsFuKL3".to_string(),
        album: SpotifyAlbum { images: vec![] },
    }
}

fn state_with(playback: PlaybackState) -> State {
    let mut state = State::new();
    state.access_token = Some("access_token".to_string());
    state.tracks = Some(vec![lingus(), conscious_club()]);
    state.playback = playback;
    state.device_id = Some("device_id".to_string());
    state
}

#[test]
fn play_or_pause_when_no_song_playing_then_call_start_or_resume() {
    let mut state = state_with(PlaybackState::PAUSED);
    assert_eq!(state.play_or_pause(1), PlaybackAction::Play {
        index: 1,
        uri: "spotify:track:5vmFVIJV9XN1l01YsFuKL3".to_string(),
        access_token: "access_token".to_string(),
        device_id: Some("device_id".to_string()),
    });
    assert_eq!(state.playback, PlaybackState::REQUESTED(1));
}

#[test]
fn play_or_pause_when_no_song_playing_and_index_out_of_bound_then_ignore() {
    let mut state = state_with(PlaybackState::PAUSED);
    assert_eq!(state.play_or_pause(2), PlaybackAction::Ignore);
    assert_eq!(state.playback, PlaybackState::PAUSED);
}

#[test]
fn play_or_pause_when_index_matches_song_currently_playing_then_call_pause() {
    let mut state = state_with(PlaybackState::PLAYING(0));
    assert_eq!(state.play_or_pause(0), PlaybackAction::Pause { access_token: "access_token".to_string() });
    assert_eq!(state.playback, PlaybackState::PAUSING);
    let mut state = state_with(PlaybackState::REQUESTED(1));
    assert_eq!(state.play_or_pause(1), PlaybackAction::Pause { access_token: "access_token".to_string() });
}

#[test]
fn play_or_pause_when_index_does_not_match_song_currently_playing_then_call_play_or_resume() {
    let mut state = state_with(PlaybackState::PLAYING(1));
    assert_eq!(state.play_or_pause(0), PlaybackAction::Play {
        index: 0,
        uri: "spotify:track:68d6ZfyMUYURol2y15Ta2Y".to_string(),
        access_token: "access_token".to_string(),
        device_id: Some("device_id".to_string()),
    });
    assert_eq!(state.playback, PlaybackState::REQUESTED(0));
}

#[test]
fn play_or_pause_when_song_playing_and_index_out_of_bound_then_ignore() {
    let mut state = state_with(PlaybackState::PLAYING(1));
    assert_eq!(state.play_or_pause(5), PlaybackAction::Ignore);
    assert_eq!(state.playback, PlaybackState::PLAYING(1));
}

#[test]
fn events_are_throttled() {
    let features = DeviceFeatures::LaunchpadPro(LaunchpadProFeatures::new());
    let pad = In::Midi(Event::Midi([144, 11, 10, 0]));
    assert_eq!(event_to_play(&features, 5_001, &pad), Some(0));
    assert_eq!(event_to_play(&features, 5_000, &pad), None);
    assert_eq!(event_to_play(&features, 0, &pad), None);
    assert_eq!(event_to_play(&features, 6_000, &In::Midi(Event::Midi([144, 9, 10, 0]))), None);
    assert_eq!(event_to_play(&features, 6_000, &In::Server(Command::SpotifyPause)), None);
}

#[test]
fn poll_state_finds_the_index_of_the_playing_track() {
    let tracks = Some(vec![lingus(), conscious_club()]);
    let playing = |track: SpotifyTrack, is_playing: bool| Some(SpotifyPlaybackState { is_playing, item: track });
    assert_eq!(currently_playing_index(&playing(conscious_club(), true), &tracks), Some(1));
    assert_eq!(currently_playing_index(&playing(conscious_club(), false), &tracks), None);
    assert_eq!(currently_playing_index(&None, &tracks), None);
    assert_eq!(currently_playing_index(&playing(conscious_club(), true), &Some(vec![lingus()])), None);
    assert_eq!(currently_playing_index(&playing(lingus(), true), &None), None);
}

#[test]
fn a_stored_token_refused_is_refreshed_once() {
    let mut state = State::new();
    assert_eq!(state.first_token_attempt(), TokenAttempt::Refresh);
    state.store_access_token("token".to_string());
    let attempt = state.first_token_attempt();
    assert_eq!(attempt, TokenAttempt::Stored("token".to_string()));
    assert!(needs_fresh_token(&attempt, &Err::<(), _>(SpotifyApiError::Unauthorized)));
    assert!(!needs_fresh_token(&attempt, &Err::<(), _>(SpotifyApiError::Other("boom".to_string()))));
    assert!(!needs_fresh_token(&attempt, &Ok(())));
    // with no token in memory, a fresh one is always fetched
    assert!(needs_fresh_token(&TokenAttempt::Refresh, &Err::<(), _>(SpotifyApiError::Unauthorized)));
    assert!(needs_fresh_token(&TokenAttempt::Refresh, &Ok(())));
}

#[test]
fn render_state_only_renders_changes() {
    assert_eq!(render_step(PlaybackState::REQUESTED(3), None), (RenderAction::CoverThenState, Some(3)));
    assert_eq!(render_step(PlaybackState::REQUESTED(3), Some(3)), (RenderAction::Nothing, Some(3)));
    assert_eq!(render_step(PlaybackState::PLAYING(2), Some(3)), (RenderAction::State, Some(2)));
    assert_eq!(render_step(PlaybackState::PAUSING, Some(2)), (RenderAction::State, None));
    assert_eq!(render_step(PlaybackState::PAUSED, None), (RenderAction::Nothing, None));
    assert_eq!(highlighted_index(PlaybackState::PLAYING(4)), Some(4));
    assert_eq!(highlighted_index(PlaybackState::PAUSED), None);
}

#[test]
fn the_cover_is_the_smallest_image_of_the_album() {
    assert_eq!(
        cover_url(&lingus()),
        Some("https://i.scdn.co/image/ab67616d00004851a29d1ada28cf3d9d5fe1972d".to_string())
    );
    assert_eq!(cover_url(&conscious_club()), None);
    assert_eq!(
        cover_to_render(&state_with(PlaybackState::REQUESTED(0))),
        Some("https://i.scdn.co/image/ab67616d00004851a29d1ada28cf3d9d5fe1972d".to_string())
    );
    assert_eq!(cover_to_render(&state_with(PlaybackState::PLAYING(1))), None);
    assert_eq!(cover_to_render(&state_with(PlaybackState::PAUSED)), None);
}

#[test]
fn the_play_command_names_the_track() {
    let tracks = vec![lingus(), conscious_club()];
    assert_eq!(
        start_or_resume_command(&"token".to_string(), &tracks, 1),
        Some(Command::SpotifyPlay {
            track_id: "spotify:track:5vmFVIJV9XN1l01YsFuKL3".to_string(),
            access_token: "token".to_string(),
        })
    );
    assert_eq!(start_or_resume_command(&"token".to_string(), &tracks, 2), None);
    assert!(pauses_playing(Some(1), 1));
    assert!(!pauses_playing(Some(1), 0));
    assert!(!pauses_playing(None, 0));
}

#[test]
fn the_spotify_logo_has_three_white_arcs_on_green() {
    let logo = get_logo();
    let g = [0u8, 255, 0];
    let w = [255u8, 255, 255];
    let expected = vec![
        g, g, g, g, g, g, g, g,
        g, g, w, w, w, w, g, g,
        g, w, g, g, g, g, w, g,
        g, g, w, w, w, w, g, g,
        g, w, g, g, g, g, w, g,
        g, g, w, w, w, w, g, g,
        g, w, g, g, g, g, w, g,
        g, g, g, g, g, g, g, g,
    ].concat();
    assert_eq!((logo.width, logo.height), (8, 8));
    assert_eq!(logo.bytes, expected);
}

#[test]
fn with_access_token_when_valid_token_in_state_then_do_not_refresh_token() {
    let mut state = State::new();
    state.store_access_token("access_token".to_string());
    let attempt = state.first_token_attempt();
    assert_eq!(attempt, TokenAttempt::Stored("access_token".to_string()));
    assert!(!needs_fresh_token(&attempt, &Ok::<u16, SpotifyApiError>(42)));
}

#[test]
fn with_access_token_when_no_token_in_state_then_do_refresh_token() {
    let state = State::new();
    let attempt = state.first_token_attempt();
    assert_eq!(attempt, TokenAttempt::Refresh);
    assert!(needs_fresh_token(&attempt, &Err::<u16, _>(SpotifyApiError::Unauthorized)));
}

#[test]
fn with_access_token_when_token_in_state_resulting_in_unauthorized_then_do_refresh_token() {
    let mut state = State::new();
    state.store_access_token("expired_token".to_string());
    let attempt = state.first_token_attempt();
    assert!(needs_fresh_token(&attempt, &Err::<u16, _>(SpotifyApiError::Unauthorized)));
    state.store_access_token("fresh_token".to_string());
    assert_eq!(state.access_token, Some("fresh_token".to_string()));
}

#[test]
fn with_access_token_when_valid_token_in_state_and_callback_failed_then_return_error() {
    let mut state = State::new();
    state.store_access_token("access_token".to_string());
    let attempt = state.first_token_attempt();
    assert!(!needs_fresh_token(&attempt, &Err::<u16, _>(SpotifyApiError::Other("failed".to_string()))));
}

#[test]
fn events_closer_than_the_delay_to_the_last_action_are_ignored() {
    let features = DeviceFeatures::Default(DefaultFeatures::new());
    // the clock starts the delay before the first event, which comes at 0 s, then 3 s and 6 s
    let times = [5_000u64, 8_000, 11_000];
    let notes = [36u8, 37, 38];
    let mut last = 0u64;
    let mut played = vec![];
    for (now, note) in times.iter().zip(notes.iter()) {
        let (index, next_last) = throttle(&features, last, *now + 1, &In::Midi(Event::Midi([144, *note, 100, 0])));
        if let Some(index) = index {
            played.push(index);
        }
        last = next_last;
    }
    assert_eq!(played, vec![0, 2]);
    assert_eq!(last, 11_001);
    // an event that designates no pad is never acted on, and keeps the last action
    assert_eq!(throttle(&features, 0, 60_000, &In::Midi(Event::Midi([143, 36, 100, 0]))), (None, 0));
    assert_eq!(throttle(&features, 0, 60_000, &In::Server(Command::SpotifyPause)), (None, 0));
}

#[test]
fn the_state_shows_the_logo_then_the_highlighted_pad() {
    let launchpad = DeviceFeatures::LaunchpadPro(LaunchpadProFeatures::new());
    let logo = launchpad.from_image(get_logo()).unwrap();
    let highlight = launchpad.from_index_to_highlight(3).unwrap();
    assert_eq!(state_events(&launchpad, PlaybackState::PLAYING(3)), vec![logo.clone(), highlight.clone()]);
    assert_eq!(state_events(&launchpad, PlaybackState::REQUESTED(3)), vec![logo.clone(), highlight]);
    assert_eq!(state_events(&launchpad, PlaybackState::PAUSED), vec![logo]);
    let default = DeviceFeatures::Default(DefaultFeatures::new());
    assert_eq!(state_events(&default, PlaybackState::PLAYING(3)), vec![]);
}

#[test]
fn the_track_plays_on_the_chosen_device() {
    assert_eq!(play_url(&Some("device_id".to_string())), "https://api.spotify.com/v1/me/player/play?device_id=device_id");
    assert_eq!(play_url(&None), "https://api.spotify.com/v1/me/player/play");
    let mut state = State::new();
    state.access_token = Some("access_token".to_string());
    state.tracks = Some(vec![lingus()]);
    assert_eq!(state.play_or_pause(0), PlaybackAction::Play {
        index: 0,
        uri: "spotify:track:68d6ZfyMUYURol2y15Ta2Y".to_string(),
        access_token: "access_token".to_string(),
        device_id: None,
    });
}
