//! Metadata-service domain types and the pure processing of its responses:
//! HTML stripping, image selection by size preference, and the mapping from
//! raw wire shapes to the processed types the presentation layer uses.
//! The HTTP fetch and the result cache are external collaborators.

use vstd::prelude::*;
use vstd::string::StrSliceExecFns;
use vstd::string::StringExecFns;

use crate::music::MusicFile;
use crate::text::all_digits;
use crate::text::digits_val;
use crate::text::parse_u32;
use crate::text::parse_u64;
use crate::text::str_eq;
use crate::text::string_from_chars;
use crate::text::trim_spaces;
use crate::text::trim_spec;

verus! {

/// Processed track metadata for the presentation layer.
#[derive(Debug, Clone, PartialEq, Eq)]
pub struct ProcessedTrackInfo {
    pub name: String,
    pub artist: String,
    pub album: Option<String>,
    pub duration: Option<u32>,
    pub playcount: Option<u64>,
    pub listeners: Option<u64>,
    pub tags: Vec<String>,
    pub wiki: Option<String>,
    pub url: String,
    pub image: Option<String>,
}

/// Processed artist metadata for the presentation layer.
#[derive(Debug, Clone, PartialEq, Eq)]
pub struct ProcessedArtistInfo {
    pub name: String,
    pub image: Option<String>,
    pub bio: String,
    pub bio_full: String,
    pub tags: Vec<String>,
    pub listeners: u64,
    pub playcount: u64,
    pub url: String,
}

/// Processed album metadata for the presentation layer.
#[derive(Debug, Clone, PartialEq, Eq)]
pub struct ProcessedAlbumInfo {
    pub name: String,
    pub artist: String,
    pub image: Option<String>,
    pub summary: String,
    pub tags: Vec<String>,
    pub listeners: u64,
    pub playcount: u64,
    pub url: String,
    pub track_count: u32,
}

/// A local file together with the metadata found for it.
#[derive(Debug, Clone, PartialEq, Eq)]
pub struct EnrichedTrack {
    pub original: MusicFile,
    pub enriched: Option<ProcessedTrackInfo>,
    pub album_art_url: Option<String>,
}

/// One image entry of a metadata response.
#[derive(Debug, Clone, PartialEq, Eq)]
pub struct LastFmImage {
    pub text: String,
    pub size: String,
}

/// One tag entry of a metadata response.
#[derive(Debug, Clone, PartialEq, Eq)]
pub struct LastFmTag {
    pub name: String,
    pub url: String,
}

/// Wire shape of a track lookup.
#[derive(Debug, Clone, PartialEq, Eq)]
pub struct TrackResponse {
    pub track: TrackInfo,
}

/// Wire shape of a track's fields.
#[derive(Debug, Clone, PartialEq, Eq)]
pub struct TrackInfo {
    pub name: String,
    pub duration: Option<String>,
    pub listeners: Option<String>,
    pub playcount: Option<String>,
    pub artist: ArtistShort,
    pub album: Option<AlbumShort>,
    pub toptags: Option<TopTags>,
    pub wiki: Option<Wiki>,
    pub url: String,
}

/// Wire shape of an artist lookup.
#[derive(Debug, Clone, PartialEq, Eq)]
pub struct ArtistResponse {
    pub artist: ArtistInfo,
}

/// Wire shape of an artist's fields.
#[derive(Debug, Clone, PartialEq, Eq)]
pub struct ArtistInfo {
    pub name: String,
    pub image: Option<Vec<LastFmImage>>,
    pub bio: Option<Bio>,
    pub tags: Option<Tags>,
    pub stats: Option<Stats>,
    pub url: String,
}

/// Wire shape of an album lookup.
#[derive(Debug, Clone, PartialEq, Eq)]
pub struct AlbumResponse {
    pub album: AlbumInfo,
}

/// Wire shape of an album's fields.
#[derive(Debug, Clone, PartialEq, Eq)]
pub struct AlbumInfo {
    pub name: String,
    pub artist: String,
    pub image: Option<Vec<LastFmImage>>,
    pub wiki: Option<Wiki>,
    pub tags: Option<Tags>,
    pub listeners: Option<String>,
    pub playcount: Option<String>,
    pub url: String,
    pub tracks: Option<TracksWrapper>,
}

/// An artist reference inside a track response.
#[derive(Debug, Clone, PartialEq, Eq)]
pub struct ArtistShort {
    pub name: String,
}

/// An album reference inside a track response.
#[derive(Debug, Clone, PartialEq, Eq)]
pub struct AlbumShort {
    pub title: String,
    pub image: Option<Vec<LastFmImage>>,
}

/// Tag list of a track response.
#[derive(Debug, Clone, PartialEq, Eq)]
pub struct TopTags {
    pub tag: Vec<LastFmTag>,
}

/// Tag list of an artist or album response.
#[derive(Debug, Clone, PartialEq, Eq)]
pub struct Tags {
    pub tag: Vec<LastFmTag>,
}

/// Biography-like text of an album response.
#[derive(Debug, Clone, PartialEq, Eq)]
pub struct Wiki {
    pub summary: String,
    pub content: String,
}

/// Biography text of an artist response.
#[derive(Debug, Clone, PartialEq, Eq)]
pub struct Bio {
    pub summary: String,
    pub content: String,
}

/// Listener statistics of an artist response.
#[derive(Debug, Clone, PartialEq, Eq)]
pub struct Stats {
    pub listeners: String,
    pub playcount: String,
}

/// Track list of an album response.
#[derive(Debug, Clone, PartialEq, Eq)]
pub struct TracksWrapper {
    pub track: Vec<TrackShort>,
}

/// One track entry of an album response.
#[derive(Debug, Clone, PartialEq, Eq)]
pub struct TrackShort {
    pub name: String,
}

/// `s` with every `<`...`>` run removed; `inside` says whether the scan
/// starts inside a tag.
pub open spec fn strip_tags(s: Seq<char>, inside: bool) -> Seq<char>
    decreases s.len(),
{
    if s.len() == 0 {
        s
    } else if s[0] == '<' {
        strip_tags(s.drop_first(), true)
    } else if s[0] == '>' {
        strip_tags(s.drop_first(), false)
    } else if inside {
        strip_tags(s.drop_first(), true)
    } else {
        seq![s[0]] + strip_tags(s.drop_first(), false)
    }
}

/// HTML-ish text cleaned for display: tags stripped, whitespace trimmed.
pub open spec fn clean_html_spec(s: Seq<char>) -> Seq<char> {
    trim_spec(strip_tags(s, false))
}

/// Strips `<`...`>` runs from a text and trims the result.
pub fn clean_html(html: &str) -> (r: String)
    ensures
        r@ == clean_html_spec(html@),
{
    let n = html.unicode_len();
    let mut out: Vec<char> = Vec::new();
    let mut inside: bool = false;
    let mut i: usize = 0;
    proof {
        assert(html@.subrange(0, n as int) =~= html@);
        assert(out@ + strip_tags(html@, false) =~= strip_tags(html@, false));
    }
    while i < n
        invariant
            i <= n,
            n == html@.len(),
            strip_tags(html@, false) == out@ + strip_tags(
                html@.subrange(i as int, n as int),
                inside,
            ),
        decreases n - i,
    {
        let c = html.get_char(i);
        proof {
            let rest = html@.subrange(i as int, n as int);
            assert(rest.len() > 0);
            assert(rest[0] == html@[i as int]);
            assert(rest.drop_first() =~= html@.subrange(i + 1, n as int));
        }
        if c == '<' {
            inside = true;
        } else if c == '>' {
            inside = false;
        } else if !inside {
            let ghost prev = out@;
            out.push(c);
            proof {
                let rest2 = html@.subrange(i + 1, n as int);
                assert(prev + (seq![c] + strip_tags(rest2, false)) =~= out@ + strip_tags(
                    rest2,
                    false,
                ));
            }
        }
        i += 1;
    }
    proof {
        assert(html@.subrange(n as int, n as int) =~= Seq::<char>::empty());
        assert(out@ + strip_tags(Seq::<char>::empty(), inside) =~= out@);
    }
    let joined = string_from_chars(&out);
    trim_spaces(joined.as_str())
}

/// Index of the first image with this size label, or the image count when
/// none has it.
pub open spec fn first_with_size(imgs: Seq<LastFmImage>, size: Seq<char>) -> int
    decreases imgs.len(),
{
    if imgs.len() == 0 {
        0
    } else if imgs[0].size@ == size {
        0
    } else {
        1 + first_with_size(imgs.drop_first(), size)
    }
}

/// Index of the first image with a non-empty URL, or the image count.
pub open spec fn first_nonempty_text(imgs: Seq<LastFmImage>) -> int
    decreases imgs.len(),
{
    if imgs.len() == 0 {
        0
    } else if imgs[0].text@.len() > 0 {
        0
    } else {
        1 + first_nonempty_text(imgs.drop_first())
    }
}

/// The image URL picked for one size label: the first image carrying the
/// label, provided its URL is non-empty.
pub open spec fn size_pick(imgs: Seq<LastFmImage>, size: Seq<char>) -> Option<Seq<char>> {
    let i = first_with_size(imgs, size);
    if i < imgs.len() && imgs[i].text@.len() > 0 {
        Option::Some(imgs[i].text@)
    } else {
        Option::None
    }
}

/// The image URL chosen from a response: sizes tried from largest to
/// smallest, then any image with a non-empty URL.
pub open spec fn best_image_spec(imgs: Seq<LastFmImage>) -> Option<Seq<char>> {
    if size_pick(imgs, "mega"@) is Some {
        size_pick(imgs, "mega"@)
    } else if size_pick(imgs, "extralarge"@) is Some {
        size_pick(imgs, "extralarge"@)
    } else if size_pick(imgs, "large"@) is Some {
        size_pick(imgs, "large"@)
    } else if size_pick(imgs, "medium"@) is Some {
        size_pick(imgs, "medium"@)
    } else if size_pick(imgs, "small"@) is Some {
        size_pick(imgs, "small"@)
    } else {
        let i = first_nonempty_text(imgs);
        if i < imgs.len() {
            Option::Some(imgs[i].text@)
        } else {
            Option::None
        }
    }
}

proof fn lemma_first_with_size_at(imgs: Seq<LastFmImage>, size: Seq<char>, k: int)
    requires
        0 <= k < imgs.len(),
        imgs[k].size@ == size,
        forall|j: int| 0 <= j < k ==> (#[trigger] imgs[j]).size@ != size,
    ensures
        first_with_size(imgs, size) == k,
    decreases k,
{
    if k > 0 {
        lemma_first_with_size_at(imgs.drop_first(), size, k - 1);
    }
}

proof fn lemma_first_with_size_absent(imgs: Seq<LastFmImage>, size: Seq<char>)
    requires
        forall|j: int| 0 <= j < imgs.len() ==> (#[trigger] imgs[j]).size@ != size,
    ensures
        first_with_size(imgs, size) == imgs.len(),
    decreases imgs.len(),
{
    if imgs.len() > 0 {
        lemma_first_with_size_absent(imgs.drop_first(), size);
    }
}

proof fn lemma_first_nonempty_at(imgs: Seq<LastFmImage>, k: int)
    requires
        0 <= k < imgs.len(),
        imgs[k].text@.len() > 0,
        forall|j: int| 0 <= j < k ==> (#[trigger] imgs[j]).text@.len() == 0,
    ensures
        first_nonempty_text(imgs) == k,
    decreases k,
{
    if k > 0 {
        lemma_first_nonempty_at(imgs.drop_first(), k - 1);
    }
}

proof fn lemma_first_nonempty_absent(imgs: Seq<LastFmImage>)
    requires
        forall|j: int| 0 <= j < imgs.len() ==> (#[trigger] imgs[j]).text@.len() == 0,
    ensures
        first_nonempty_text(imgs) == imgs.len(),
    decreases imgs.len(),
{
    if imgs.len() > 0 {
        lemma_first_nonempty_absent(imgs.drop_first());
    }
}

/// Finds the first image carrying a size label.
fn find_first_with_size(images: &Vec<LastFmImage>, size: &str) -> (r: Option<usize>)
    ensures
        match r {
            Some(i) => i as int == first_with_size(images@, size@) && i < images@.len(),
            None => first_with_size(images@, size@) == images@.len(),
        },
{
    let mut k: usize = 0;
    while k < images.len()
        invariant
            k <= images@.len(),
            forall|j: int| 0 <= j < k ==> (#[trigger] images@[j]).size@ != size@,
        decreases images@.len() - k,
    {
        if str_eq(images[k].size.as_str(), size) {
            proof {
                lemma_first_with_size_at(images@, size@, k as int);
            }
            return Some(k);
        }
        k += 1;
    }
    proof {
        lemma_first_with_size_absent(images@, size@);
    }
    None
}

/// Picks the best image URL from a response: each size label from largest
/// to smallest, then any non-empty URL.
pub fn get_best_image(images: &Vec<LastFmImage>) -> (r: Option<String>)
    ensures
        match r {
            Some(u) => best_image_spec(images@) matches Some(x) && u@ == x,
            None => best_image_spec(images@) is None,
        },
{
    let mut k: usize = 0;
    while k < 5
        invariant
            k <= 5,
            k >= 1 ==> size_pick(images@, "mega"@) is None,
            k >= 2 ==> size_pick(images@, "extralarge"@) is None,
            k >= 3 ==> size_pick(images@, "large"@) is None,
            k >= 4 ==> size_pick(images@, "medium"@) is None,
            k >= 5 ==> size_pick(images@, "small"@) is None,
        decreases 5 - k,
    {
        let size: &str = if k == 0 {
            "mega"
        } else if k == 1 {
            "extralarge"
        } else if k == 2 {
            "large"
        } else if k == 3 {
            "medium"
        } else {
            "small"
        };
        match find_first_with_size(images, size) {
            Some(i) => {
                if images[i].text.as_str().unicode_len() > 0 {
                    return Some(images[i].text.clone());
                }
            },
            None => {},
        }
        k += 1;
    }
    let mut j: usize = 0;
    while j < images.len()
        invariant
            j <= images@.len(),
            size_pick(images@, "mega"@) is None,
            size_pick(images@, "extralarge"@) is None,
            size_pick(images@, "large"@) is None,
            size_pick(images@, "medium"@) is None,
            size_pick(images@, "small"@) is None,
            forall|i: int| 0 <= i < j ==> (#[trigger] images@[i]).text@.len() == 0,
        decreases images@.len() - j,
    {
        if images[j].text.as_str().unicode_len() > 0 {
            proof {
                lemma_first_nonempty_at(images@, j as int);
            }
            return Some(images[j].text.clone());
        }
        j += 1;
    }
    proof {
        lemma_first_nonempty_absent(images@);
    }
    None
}

} // verus!

verus! {

/// What a decimal field parses to: its value when it is all digits and fits.
pub open spec fn spec_parse_u32(s: Seq<char>) -> Option<u32> {
    if all_digits(s) && digits_val(s) <= u32::MAX {
        Option::Some(digits_val(s) as u32)
    } else {
        Option::None
    }
}

/// What a decimal field parses to: its value when it is all digits and fits.
pub open spec fn spec_parse_u64(s: Seq<char>) -> Option<u64> {
    if all_digits(s) && digits_val(s) <= u64::MAX {
        Option::Some(digits_val(s) as u64)
    } else {
        Option::None
    }
}

/// `out` holds the names of the first five tags, in order.
pub open spec fn tags_taken(tags: Seq<LastFmTag>, out: Seq<String>) -> bool {
    out.len() == (if tags.len() <= 5 {
        tags.len() as int
    } else {
        5int
    }) && forall|i: int| 0 <= i < out.len() ==> out[i] == (#[trigger] tags[i]).name
}

/// The image field produced for an optional image list.
pub open spec fn image_field(imgs: Option<Vec<LastFmImage>>, field: Option<String>) -> bool {
    match imgs {
        Some(v) => (match best_image_spec(v@) {
            Option::Some(u) => field matches Some(x) && x@ == u,
            Option::None => field is None,
        }),
        None => field is None,
    }
}

/// Takes the names of the first five tags.
fn take_tag_names(tags: &Vec<LastFmTag>) -> (r: Vec<String>)
    ensures
        tags_taken(tags@, r@),
{
    let mut out: Vec<String> = Vec::new();
    let mut i: usize = 0;
    while i < 5 && i < tags.len()
        invariant
            i <= 5,
            i <= tags@.len(),
            out@.len() == i,
            forall|j: int| 0 <= j < i ==> out@[j] == (#[trigger] tags@[j]).name,
        decreases tags@.len() - i,
    {
        out.push(tags[i].name.clone());
        i += 1;
    }
    out
}

/// Processes a raw track response into its presentation shape: names copied
/// through, numeric fields parsed, the duration converted from milliseconds
/// to seconds, at most five tags kept, wiki text cleaned, and the album
/// image chosen by size preference.
pub fn process_track_info(t: &TrackInfo) -> (r: ProcessedTrackInfo)
    ensures
        r.name == t.name && r.artist == t.artist.name && r.url == t.url,
        t.album matches Some(a) ==> (r.album matches Some(x) && x == a.title),
        t.album is None ==> r.album is None,
        t.duration matches Some(d) ==> r.duration == (match spec_parse_u32(d@) {
            Option::Some(ms) => Option::Some((ms / 1000) as u32),
            Option::None => Option::<u32>::None,
        }),
        t.duration is None ==> r.duration is None,
        t.playcount matches Some(p) ==> r.playcount == spec_parse_u64(p@),
        t.playcount is None ==> r.playcount is None,
        t.listeners matches Some(l) ==> r.listeners == spec_parse_u64(l@),
        t.listeners is None ==> r.listeners is None,
        t.toptags matches Some(tt) ==> tags_taken(tt.tag@, r.tags@),
        t.toptags is None ==> r.tags@.len() == 0,
        t.wiki matches Some(w) ==> (r.wiki matches Some(x) && x@ == clean_html_spec(w.summary@)),
        t.wiki is None ==> r.wiki is None,
        t.album matches Some(a) ==> image_field(a.image, r.image),
        t.album is None ==> r.image is None,
{
    let album: Option<String> = match &t.album {
        Some(a) => Some(a.title.clone()),
        None => None,
    };
    let duration: Option<u32> = match &t.duration {
        Some(d) => {
            match parse_u32(d.as_str()) {
                Some(ms) => Some(ms / 1000),
                None => None,
            }
        },
        None => None,
    };
    let playcount: Option<u64> = match &t.playcount {
        Some(p) => parse_u64(p.as_str()),
        None => None,
    };
    let listeners: Option<u64> = match &t.listeners {
        Some(l) => parse_u64(l.as_str()),
        None => None,
    };
    let tags: Vec<String> = match &t.toptags {
        Some(tt) => take_tag_names(&tt.tag),
        None => Vec::new(),
    };
    let wiki: Option<String> = match &t.wiki {
        Some(w) => Some(clean_html(w.summary.as_str())),
        None => None,
    };
    let image: Option<String> = match &t.album {
        Some(a) => {
            match &a.image {
                Some(imgs) => get_best_image(imgs),
                None => None,
            }
        },
        None => None,
    };
    ProcessedTrackInfo {
        name: t.name.clone(),
        artist: t.artist.name.clone(),
        album,
        duration,
        playcount,
        listeners,
        tags,
        wiki,
        url: t.url.clone(),
        image,
    }
}

/// Processes a raw artist response into its presentation shape: biography
/// text cleaned (empty when absent), statistics parsed with zero as the
/// fallback, at most five tags kept, and the image chosen by size
/// preference.
pub fn process_artist_info(a: &ArtistInfo) -> (r: ProcessedArtistInfo)
    ensures
        r.name == a.name && r.url == a.url,
        image_field(a.image, r.image),
        a.bio matches Some(b) ==> r.bio@ == clean_html_spec(b.summary@) && r.bio_full@
            == clean_html_spec(b.content@),
        a.bio is None ==> r.bio@.len() == 0 && r.bio_full@.len() == 0,
        a.tags matches Some(ts) ==> tags_taken(ts.tag@, r.tags@),
        a.tags is None ==> r.tags@.len() == 0,
        a.stats matches Some(st) ==> r.listeners == (match spec_parse_u64(st.listeners@) {
            Option::Some(v) => v,
            Option::None => 0u64,
        }) && r.playcount == (match spec_parse_u64(st.playcount@) {
            Option::Some(v) => v,
            Option::None => 0u64,
        }),
        a.stats is None ==> r.listeners == 0 && r.playcount == 0,
{
    let image: Option<String> = match &a.image {
        Some(imgs) => get_best_image(imgs),
        None => None,
    };
    let (bio, bio_full): (String, String) = match &a.bio {
        Some(b) => (clean_html(b.summary.as_str()), clean_html(b.content.as_str())),
        None => (String::new(), String::new()),
    };
    let tags: Vec<String> = match &a.tags {
        Some(ts) => take_tag_names(&ts.tag),
        None => Vec::new(),
    };
    let (listeners, playcount): (u64, u64) = match &a.stats {
        Some(st) => {
            let l: u64 = match parse_u64(st.listeners.as_str()) {
                Some(v) => v,
                None => 0,
            };
            let p: u64 = match parse_u64(st.playcount.as_str()) {
                Some(v) => v,
                None => 0,
            };
            (l, p)
        },
        None => (0, 0),
    };
    ProcessedArtistInfo {
        name: a.name.clone(),
        image,
        bio,
        bio_full,
        tags,
        listeners,
        playcount,
        url: a.url.clone(),
    }
}

/// Processes a raw album response into its presentation shape: summary text
/// cleaned (empty when absent), counts parsed with zero as the fallback, at
/// most five tags kept, the image chosen by size preference, and the track
/// count taken from the track list.
pub fn process_album_info(a: &AlbumInfo) -> (r: ProcessedAlbumInfo)
    ensures
        r.name == a.name && r.artist == a.artist && r.url == a.url,
        image_field(a.image, r.image),
        a.wiki matches Some(w) ==> r.summary@ == clean_html_spec(w.summary@),
        a.wiki is None ==> r.summary@.len() == 0,
        a.tags matches Some(ts) ==> tags_taken(ts.tag@, r.tags@),
        a.tags is None ==> r.tags@.len() == 0,
        a.listeners matches Some(l) ==> r.listeners == (match spec_parse_u64(l@) {
            Option::Some(v) => v,
            Option::None => 0u64,
        }),
        a.listeners is None ==> r.listeners == 0,
        a.playcount matches Some(p) ==> r.playcount == (match spec_parse_u64(p@) {
            Option::Some(v) => v,
            Option::None => 0u64,
        }),
        a.playcount is None ==> r.playcount == 0,
        a.tracks matches Some(tw) ==> r.track_count as int == (if tw.track@.len() <= u32::MAX {
            tw.track@.len() as int
        } else {
            u32::MAX as int
        }),
        a.tracks is None ==> r.track_count == 0,
{
    let image: Option<String> = match &a.image {
        Some(imgs) => get_best_image(imgs),
        None => None,
    };
    let summary: String = match &a.wiki {
        Some(w) => clean_html(w.summary.as_str()),
        None => String::new(),
    };
    let tags: Vec<String> = match &a.tags {
        Some(ts) => take_tag_names(&ts.tag),
        None => Vec::new(),
    };
    let listeners: u64 = match &a.listeners {
        Some(l) => {
            match parse_u64(l.as_str()) {
                Some(v) => v,
                None => 0,
            }
        },
        None => 0,
    };
    let playcount: u64 = match &a.playcount {
        Some(p) => {
            match parse_u64(p.as_str()) {
                Some(v) => v,
                None => 0,
            }
        },
        None => 0,
    };
    let track_count: u32 = match &a.tracks {
        Some(tw) => {
            if tw.track.len() > 0xffff_ffff {
                0xffff_ffff
            } else {
                tw.track.len() as u32
            }
        },
        None => 0,
    };
    ProcessedAlbumInfo {
        name: a.name.clone(),
        artist: a.artist.clone(),
        image,
        summary,
        tags,
        listeners,
        playcount,
        url: a.url.clone(),
        track_count,
    }
}

} // verus!

verus! {

/// Pairs a local file with the metadata found for it: the album-art URL is
/// taken from the found metadata's image, when there is one.
pub fn enrich_track(original: MusicFile, enriched: Option<ProcessedTrackInfo>) -> (r:
    EnrichedTrack)
    ensures
        r.original == original,
        r.enriched == enriched,
        enriched matches Some(e) ==> r.album_art_url == e.image,
        enriched is None ==> r.album_art_url is None,
{
    let album_art_url: Option<String> = match &enriched {
        Some(e) => {
            match &e.image {
                Some(u) => Some(u.clone()),
                None => None,
            }
        },
        None => None,
    };
    EnrichedTrack { original, enriched, album_art_url }
}

} // verus!
