//! Tests of the metadata model: filename heuristics, tag assembly, album
//! art encoding and error messages.

use musicplayer::errors::{AppError, DownloadError, FileError, SpotifyError};
use musicplayer::metadata::{AlbumArt, ArtMimeKind, FileService, TagData};
use musicplayer::music::MusicFile;

fn tag(title: Option<&str>, artist: Option<&str>) -> TagData {
    TagData {
        title: title.map(str::to_string),
        artist: artist.map(str::to_string),
        album: Some("An Album".to_string()),
        duration: Some(185),
        year: Some(1999),
        genre: Some("rock".to_string()),
        album_cover: None,
    }
}

#[test]
fn filename_cleaning_strips_track_numbers() {
    assert_eq!(FileService::clean_filename_for_title("01 - Song Name"), "Song Name");
    assert_eq!(FileService::clean_filename_for_title("12. Another"), "Another");
    assert_eq!(FileService::clean_filename_for_title("Plain"), "Plain");
    // A name that is nothing but a number falls back to itself.
    assert_eq!(FileService::clean_filename_for_title("123"), "123");
    assert_eq!(FileService::clean_filename_for_title(""), "");
}

#[test]
fn artist_is_read_from_the_stem() {
    assert_eq!(
        FileService::extract_artist_from_filename("Artist - Title"),
        Some("Artist".to_string())
    );
    assert_eq!(
        FileService::extract_artist_from_filename("Some Band _ Tune"),
        Some("Some Band".to_string())
    );
    // A bare track number is not an artist.
    assert_eq!(FileService::extract_artist_from_filename("01 - Title"), None);
    assert_eq!(FileService::extract_artist_from_filename("NoSeparator"), None);
}

#[test]
fn fallback_metadata_uses_the_cleaned_stem() {
    let m = FileService::create_fallback_metadata("music/01 - Song.mp3");
    assert_eq!(m.path, "music/01 - Song.mp3");
    assert_eq!(m.title, Some("Song".to_string()));
    assert_eq!(m.album, None);
    assert_eq!(m.duration, None);
    assert_eq!(m.album_art, None);
}

#[test]
fn album_art_becomes_a_data_url() {
    let art = AlbumArt { mime: ArtMimeKind::Png, data: vec![1, 2, 3] };
    let url = FileService::extract_album_art(&Some(art)).unwrap();
    assert_eq!(url, "data:image/png;base64,AQID");
    let art = AlbumArt { mime: ArtMimeKind::Jpeg, data: vec![] };
    let url = FileService::extract_album_art(&Some(art)).unwrap();
    assert_eq!(url, "data:image/jpeg;base64,");
    assert_eq!(FileService::extract_album_art(&None), None);
}

#[test]
fn metadata_prefers_tag_fields() {
    let m = FileService::get_audio_metadata(
        "music/01 - Raw.mp3",
        true,
        true,
        Some(&tag(Some("Real Title"), Some("Real Artist"))),
    )
    .unwrap();
    assert_eq!(m.title, Some("Real Title".to_string()));
    assert_eq!(m.artist, Some("Real Artist".to_string()));
    assert_eq!(m.album, Some("An Album".to_string()));
    assert_eq!(m.duration, Some(185));
    assert_eq!(m.year, Some(1999));
}

#[test]
fn blank_tag_title_falls_back_to_the_filename() {
    let m = FileService::get_audio_metadata(
        "music/02 - Fallback.mp3",
        true,
        true,
        Some(&tag(Some("   "), None)),
    )
    .unwrap();
    assert_eq!(m.title, Some("Fallback".to_string()));
}

#[test]
fn missing_tag_yields_fallback_metadata() {
    let m = FileService::get_audio_metadata("music/Band - Tune.flac", true, true, None).unwrap();
    assert_eq!(m.title, Some("Band - Tune".to_string()));
    assert_eq!(m.artist, Some("Band".to_string()));
    assert_eq!(m.genre, None);
}

#[test]
fn non_audio_files_are_rejected_with_their_extension() {
    let err = FileService::get_audio_metadata("music/notes.txt", true, true, None).unwrap_err();
    assert_eq!(
        err,
        AppError::File(FileError::UnsupportedFormat("txt".to_string()))
    );
    let err = FileService::get_audio_metadata("music/none", true, true, None).unwrap_err();
    assert_eq!(
        err,
        AppError::File(FileError::UnsupportedFormat("unknown".to_string()))
    );
    let err = FileService::get_audio_metadata("gone.mp3", false, true, None).unwrap_err();
    assert_eq!(err, AppError::File(FileError::NotFound("gone.mp3".to_string())));
}

#[test]
fn scan_limit_guards_the_ceiling() {
    assert!(FileService::check_scan_limit(9999).is_ok());
    assert_eq!(
        FileService::check_scan_limit(10000).unwrap_err(),
        AppError::File(FileError::ScanLimitExceeded(10000))
    );
}

#[test]
fn music_file_new_sets_only_path_and_title() {
    let m = MusicFile::new("a.mp3".to_string(), Some("A".to_string()));
    assert_eq!(m.path, "a.mp3");
    assert_eq!(m.title, Some("A".to_string()));
    assert_eq!(m.artist, None);
    assert_eq!(m.album_art, None);
}

#[test]
fn error_messages_render_with_their_payloads() {
    assert_eq!(
        AppError::File(FileError::ScanDepthExceeded(10)).to_user_message(),
        "Scan depth exceeded: max 10 levels"
    );
    assert_eq!(
        AppError::Download(DownloadError::Timeout(300)).to_user_message(),
        "Download timeout after 300 seconds"
    );
    assert_eq!(
        AppError::Spotify(SpotifyError::OAuthTimeout(120)).to_user_message(),
        "OAuth timeout after 120 seconds"
    );
    assert_eq!(
        AppError::Spotify(SpotifyError::NotAuthenticated).to_user_message(),
        "Not authenticated. Please authenticate first."
    );
    assert_eq!(
        AppError::Download(DownloadError::YouTubeError).to_user_message(),
        "YouTube download error. Update yt-dlp: pip install --upgrade yt-dlp spotdl"
    );
    assert_eq!(
        AppError::Validation("bad input".to_string()).to_user_message(),
        "bad input"
    );
    assert_eq!(
        AppError::Io("broken pipe".to_string()).to_user_message(),
        "IO error: broken pipe"
    );
    assert_eq!(
        AppError::Unknown("x".to_string()).to_user_message(),
        "Unknown error: x"
    );
    assert_eq!(
        AppError::Concurrency("lock".to_string()).to_user_message(),
        "Concurrency error: lock"
    );
    assert_eq!(
        AppError::File(FileError::MetadataRead("bad frame".to_string())).to_user_message(),
        "Failed to read metadata: bad frame"
    );
    assert_eq!(
        AppError::Spotify(SpotifyError::TokenExchange("denied".to_string())).to_user_message(),
        "Failed to exchange token: denied"
    );
}

#[test]
fn blank_tag_artist_falls_back_to_the_filename() {
    let m = FileService::get_audio_metadata(
        "music/Band - Tune.mp3",
        true,
        true,
        Some(&tag(Some("Title"), Some("   "))),
    )
    .unwrap();
    assert_eq!(m.artist, Some("Band".to_string()));
    let m = FileService::get_audio_metadata(
        "music/NoSeparator.mp3",
        true,
        true,
        Some(&tag(Some("Title"), None)),
    )
    .unwrap();
    assert_eq!(m.artist, None);
}

#[test]
fn later_separators_are_tried_after_a_rejected_one() {
    // The first separator yields a bare track number; the underscore one
    // yields a usable artist.
    assert_eq!(
        FileService::extract_artist_from_filename("01 - x _ Tune"),
        Some("01 - x".to_string())
    );
    assert_eq!(FileService::extract_artist_from_filename("12 - Tune"), None);
}
