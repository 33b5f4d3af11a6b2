//! Tests of the catalog-service helpers: OAuth callback parsing and
//! streaming-progress arithmetic.

use musicplayer::errors::{AppError, SpotifyError};
use musicplayer::spotify::SpotifyService;

#[test]
fn auth_code_is_read_from_the_callback_url() {
    let r = SpotifyService::extract_auth_code(
        "http://127.0.0.1:8888/callback?code=AQBzrch&state=xyz",
    );
    assert_eq!(r.unwrap(), "AQBzrch");
    let r = SpotifyService::extract_auth_code("http://127.0.0.1:8888/callback?code=tail");
    assert_eq!(r.unwrap(), "tail");
}

#[test]
fn missing_or_empty_code_is_rejected() {
    let r = SpotifyService::extract_auth_code("http://127.0.0.1:8888/callback?error=denied");
    assert_eq!(
        r.unwrap_err(),
        AppError::Spotify(SpotifyError::InvalidAuthCode)
    );
    let r = SpotifyService::extract_auth_code("http://127.0.0.1:8888/callback?code=&state=x");
    assert_eq!(
        r.unwrap_err(),
        AppError::Spotify(SpotifyError::InvalidAuthCode)
    );
}

#[test]
fn progress_is_a_rounded_down_percentage() {
    assert_eq!(SpotifyService::calculate_progress(25, 50), 50);
    assert_eq!(SpotifyService::calculate_progress(1, 3), 33);
    assert_eq!(SpotifyService::calculate_progress(3, 3), 100);
    assert_eq!(SpotifyService::calculate_progress(0, 7), 0);
    // An empty listing counts as fully sent.
    assert_eq!(SpotifyService::calculate_progress(0, 0), 100);
}

#[test]
fn stream_info_carries_plain_values() {
    let info = musicplayer::music::SongStreamInfo {
        title: "Song".to_string(),
        artist: Some("Band".to_string()),
        album: None,
        duration: Some(185),
        stream_url: "http://example/stream".to_string(),
        thumbnail: None,
        video_id: Some("vid123".to_string()),
    };
    assert_eq!(info.title, "Song");
    assert_eq!(info.duration, Some(185));
    assert_eq!(info.clone(), info);
}
