//! Tests of the validation rules, path checks and text utilities.

use musicplayer::errors::{AppError, DownloadError, FileError};
use musicplayer::paths::{
    file_extension, file_stem, get_default_music_folder, is_audio_file, validate_directory,
    validate_file, validate_output_path, validate_path,
};
use musicplayer::text::{fmt_u64, parse_u32, parse_u64, trim_spaces};
use musicplayer::validation::{
    extract_song_id, sanitize_query, validate_audio_extension, validate_batch_size,
    validate_download_format, validate_spotify_url,
};

#[test]
fn spotify_url_shape_is_checked() {
    assert!(validate_spotify_url("https://open.spotify.com/track/4uLU6hMCjMI75M1A2tKUQC").is_ok());
    let err = validate_spotify_url("https://open.spotify.com/album/xyz").unwrap_err();
    assert_eq!(
        err,
        AppError::Download(DownloadError::InvalidUrl(
            "https://open.spotify.com/album/xyz".to_string()
        ))
    );
    assert!(validate_spotify_url("").is_err());
}

#[test]
fn format_rejection_names_the_allowed_set() {
    for f in ["mp3", "flac", "ogg", "m4a", "opus"] {
        assert!(validate_download_format(f).is_ok());
    }
    let err = validate_download_format("wav").unwrap_err();
    assert_eq!(
        err.to_user_message(),
        "Invalid output format: Use one of: mp3, flac, ogg, m4a, opus"
    );
}

#[test]
fn audio_extensions_match_case_insensitively() {
    assert!(validate_audio_extension("MP3").is_ok());
    assert!(validate_audio_extension("wma").is_ok());
    let err = validate_audio_extension("txt").unwrap_err();
    assert_eq!(
        err,
        AppError::File(FileError::UnsupportedFormat("txt".to_string()))
    );
}

#[test]
fn batch_size_ceiling_is_enforced() {
    assert!(validate_batch_size(100, 100).is_ok());
    assert_eq!(
        validate_batch_size(101, 100).unwrap_err(),
        AppError::Download(DownloadError::TooManySongs(100))
    );
}

#[test]
fn song_id_comes_from_the_last_path_segment() {
    assert_eq!(
        extract_song_id("https://open.spotify.com/track/4uLU6?si=abc"),
        "4uLU6"
    );
    assert_eq!(extract_song_id("plain"), "plain");
    assert_eq!(extract_song_id("a/b/c"), "c");
    assert_eq!(extract_song_id(""), "");
}

#[test]
fn sanitize_keeps_letters_spaces_dashes_and_quotes() {
    assert_eq!(sanitize_query("abc; rm -rf /"), "abc rm -rf ");
    assert_eq!(sanitize_query("It's a song!"), "It's a song");
    let long = "a".repeat(250);
    assert_eq!(sanitize_query(&long).len(), 200);
    assert_eq!(sanitize_query(""), "");
}

#[test]
fn path_validation_reports_the_first_violated_rule() {
    assert!(validate_path("music", true).is_ok());
    assert_eq!(
        validate_path("music", false).unwrap_err(),
        AppError::File(FileError::NotFound("music".to_string()))
    );
    assert_eq!(
        validate_path("../music", true).unwrap_err(),
        AppError::File(FileError::PathTraversal("../music".to_string()))
    );
    // Existence is checked before traversal.
    assert_eq!(
        validate_path("../music", false).unwrap_err(),
        AppError::File(FileError::NotFound("../music".to_string()))
    );
}

#[test]
fn directory_and_file_checks_add_their_own_errors() {
    assert!(validate_directory("m", true, true).is_ok());
    assert_eq!(
        validate_directory("m", true, false).unwrap_err(),
        AppError::File(FileError::NotDirectory("m".to_string()))
    );
    assert!(validate_file("m/a.mp3", true, true).is_ok());
    assert_eq!(
        validate_file("m/a.mp3", true, false).unwrap_err(),
        AppError::File(FileError::NotFile("m/a.mp3".to_string()))
    );
}

#[test]
fn output_path_needs_existing_parent_and_no_traversal() {
    assert_eq!(validate_output_path("music/out", true).unwrap(), "music/out");
    assert_eq!(
        validate_output_path("music/../x", true).unwrap_err(),
        AppError::File(FileError::PathTraversal("music/../x".to_string()))
    );
    assert_eq!(
        validate_output_path("music/out", false).unwrap_err(),
        AppError::Download(DownloadError::OutputDirNotFound("music/out".to_string()))
    );
}

#[test]
fn audio_files_are_recognised_by_extension() {
    assert!(is_audio_file("music/Song.MP3"));
    assert!(is_audio_file("a/b/c.flac"));
    assert!(!is_audio_file("notes.txt"));
    assert!(!is_audio_file("noextension"));
    assert!(!is_audio_file("music/.hidden"));
}

#[test]
fn stems_and_extensions_split_file_names() {
    assert_eq!(file_stem("music/01 - Song.mp3"), "01 - Song");
    assert_eq!(file_stem("noext"), "noext");
    assert_eq!(file_extension("music/a.ogg"), Some("ogg".to_string()));
    assert_eq!(file_extension("music/none"), None);
}

#[test]
fn default_music_folder_picks_the_first_existing() {
    let candidates = vec!["/a/Music".to_string(), "/b/Music".to_string()];
    let r = get_default_music_folder(&candidates, &vec![false, true]);
    assert_eq!(r.unwrap(), "/b/Music");
    let r = get_default_music_folder(&candidates, &vec![false, false]);
    assert_eq!(
        r.unwrap_err(),
        AppError::File(FileError::NotFound(
            "Default music folder not found".to_string()
        ))
    );
}

#[test]
fn decimal_helpers_round_trip() {
    assert_eq!(parse_u64("0"), Some(0));
    assert_eq!(parse_u64("18446744073709551615"), Some(u64::MAX));
    assert_eq!(parse_u64("18446744073709551616"), None);
    assert_eq!(parse_u64("12a"), None);
    assert_eq!(parse_u64(""), None);
    assert_eq!(parse_u32("4294967295"), Some(u32::MAX));
    assert_eq!(parse_u32("4294967296"), None);
    assert_eq!(fmt_u64(0), "0");
    assert_eq!(fmt_u64(10), "10");
    assert_eq!(fmt_u64(18446744073709551615), "18446744073709551615");
    assert_eq!(parse_u64(&fmt_u64(987654321)), Some(987654321));
}

#[test]
fn trim_removes_ascii_whitespace_on_both_ends() {
    assert_eq!(trim_spaces("  4.2.5\r\n"), "4.2.5");
    assert_eq!(trim_spaces("\t\n "), "");
    assert_eq!(trim_spaces("a b"), "a b");
}
