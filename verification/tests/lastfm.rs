//! Tests of metadata-service response processing.

use musicplayer::lastfm::{
    clean_html, enrich_track, get_best_image, process_album_info, process_artist_info,
    process_track_info, AlbumInfo, AlbumShort, ArtistInfo, ArtistShort, Bio, LastFmImage,
    LastFmTag, Stats, TopTags, TrackInfo, TrackShort, TracksWrapper, Wiki,
};
use musicplayer::music::MusicFile;

fn img(size: &str, text: &str) -> LastFmImage {
    LastFmImage { text: text.to_string(), size: size.to_string() }
}

fn tag(name: &str) -> LastFmTag {
    LastFmTag { name: name.to_string(), url: String::new() }
}

#[test]
fn html_is_stripped_and_trimmed() {
    assert_eq!(clean_html("<p>Hello <b>world</b></p>  "), "Hello world");
    assert_eq!(clean_html("no markup"), "no markup");
    assert_eq!(clean_html("<a href=\"x\">link</a>"), "link");
    assert_eq!(clean_html(""), "");
    assert_eq!(clean_html("<only><tags>"), "");
}

#[test]
fn best_image_prefers_larger_sizes() {
    let images = vec![
        img("small", "s-url"),
        img("mega", "m-url"),
        img("large", "l-url"),
    ];
    assert_eq!(get_best_image(&images), Some("m-url".to_string()));
    let images = vec![img("small", "s-url"), img("large", "l-url")];
    assert_eq!(get_best_image(&images), Some("l-url".to_string()));
}

#[test]
fn best_image_skips_empty_urls_and_falls_back() {
    let images = vec![img("mega", ""), img("odd", "fallback-url")];
    assert_eq!(get_best_image(&images), Some("fallback-url".to_string()));
    let images = vec![img("mega", ""), img("small", "")];
    assert_eq!(get_best_image(&images), None);
    assert_eq!(get_best_image(&vec![]), None);
}

#[test]
fn track_processing_parses_and_converts() {
    let t = TrackInfo {
        name: "Song".to_string(),
        duration: Some("185000".to_string()),
        listeners: Some("4321".to_string()),
        playcount: Some("notanumber".to_string()),
        artist: ArtistShort { name: "Band".to_string() },
        album: Some(AlbumShort {
            title: "Album".to_string(),
            image: Some(vec![img("large", "art-url")]),
        }),
        toptags: Some(TopTags {
            tag: vec![tag("a"), tag("b"), tag("c"), tag("d"), tag("e"), tag("f")],
        }),
        wiki: Some(Wiki {
            summary: "<p>About</p>".to_string(),
            content: String::new(),
        }),
        url: "http://example/track".to_string(),
    };
    let p = process_track_info(&t);
    assert_eq!(p.name, "Song");
    assert_eq!(p.artist, "Band");
    assert_eq!(p.album, Some("Album".to_string()));
    assert_eq!(p.duration, Some(185));
    assert_eq!(p.listeners, Some(4321));
    assert_eq!(p.playcount, None);
    assert_eq!(p.tags, vec!["a", "b", "c", "d", "e"]);
    assert_eq!(p.wiki, Some("About".to_string()));
    assert_eq!(p.image, Some("art-url".to_string()));
}

#[test]
fn artist_processing_defaults_missing_fields() {
    let a = ArtistInfo {
        name: "Band".to_string(),
        image: None,
        bio: Some(Bio {
            summary: "<b>Bio</b>".to_string(),
            content: "Long <i>bio</i>".to_string(),
        }),
        tags: None,
        stats: Some(Stats {
            listeners: "7".to_string(),
            playcount: "x".to_string(),
        }),
        url: "http://example/artist".to_string(),
    };
    let p = process_artist_info(&a);
    assert_eq!(p.image, None);
    assert_eq!(p.bio, "Bio");
    assert_eq!(p.bio_full, "Long bio");
    assert_eq!(p.tags.len(), 0);
    assert_eq!(p.listeners, 7);
    assert_eq!(p.playcount, 0);
}

#[test]
fn album_processing_counts_tracks() {
    let a = AlbumInfo {
        name: "Album".to_string(),
        artist: "Band".to_string(),
        image: Some(vec![img("extralarge", "xl-url")]),
        wiki: None,
        tags: Some(musicplayer::lastfm::Tags { tag: vec![tag("one")] }),
        listeners: None,
        playcount: Some("12".to_string()),
        url: "http://example/album".to_string(),
        tracks: Some(TracksWrapper {
            track: vec![
                TrackShort { name: "1".to_string() },
                TrackShort { name: "2".to_string() },
            ],
        }),
    };
    let p = process_album_info(&a);
    assert_eq!(p.image, Some("xl-url".to_string()));
    assert_eq!(p.summary, "");
    assert_eq!(p.tags, vec!["one"]);
    assert_eq!(p.listeners, 0);
    assert_eq!(p.playcount, 12);
    assert_eq!(p.track_count, 2);
}

#[test]
fn enrichment_carries_the_image_forward() {
    let file = MusicFile::new("a.mp3".to_string(), Some("A".to_string()));
    let info = process_track_info(&TrackInfo {
        name: "A".to_string(),
        duration: None,
        listeners: None,
        playcount: None,
        artist: ArtistShort { name: "B".to_string() },
        album: Some(AlbumShort {
            title: "Al".to_string(),
            image: Some(vec![img("small", "cover-url")]),
        }),
        toptags: None,
        wiki: None,
        url: String::new(),
    });
    let enriched = enrich_track(file.clone(), Some(info));
    assert_eq!(enriched.album_art_url, Some("cover-url".to_string()));
    assert_eq!(enriched.original, file);
    let bare = enrich_track(file, None);
    assert_eq!(bare.album_art_url, None);
}
