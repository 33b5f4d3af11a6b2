//! Audio-file metadata: the values read from a file's tag (by the embedding
//! application) turned into the library's `MusicFile` model, with the
//! filename heuristics used when tags are missing.

use vstd::prelude::*;
use vstd::string::StrSliceExecFns;
use vstd::string::StringExecFns;

use crate::errors::AppError;
use crate::errors::FileError;
use crate::music::MAX_FILES_PER_SCAN;
use crate::music::MusicFile;
use crate::paths::extension_of;
use crate::paths::is_audio_file;
use crate::paths::is_audio_path;
use crate::paths::file_stem;
use crate::paths::has_traversal;
use crate::paths::stem_of;
use crate::paths::validate_file;
use crate::text::chars_of;
use crate::text::find_substring;
use crate::text::first_match_index;
use crate::text::has_substring;
use crate::text::lemma_first_match_at;
use crate::text::is_digit_char;
use crate::text::trim_spaces;
use crate::text::trim_spec;

verus! {

/// The image formats album art may carry.
#[derive(Debug, Clone, PartialEq, Eq)]
pub enum ArtMimeKind {
    Jpeg,
    Png,
    Bmp,
    Gif,
    Other,
}

/// Album art read from a tag: its image format and raw bytes.
#[derive(Debug, Clone, PartialEq, Eq)]
pub struct AlbumArt {
    pub mime: ArtMimeKind,
    pub data: Vec<u8>,
}

/// The plain values the embedding application reads from an audio tag.
#[derive(Debug, Clone, PartialEq, Eq)]
pub struct TagData {
    pub title: Option<String>,
    pub artist: Option<String>,
    pub album: Option<String>,
    pub duration: Option<u32>,
    pub year: Option<i32>,
    pub genre: Option<String>,
    pub album_cover: Option<AlbumArt>,
}

/// `s` with its leading ASCII digits removed.
pub open spec fn drop_digits(s: Seq<char>) -> Seq<char>
    decreases s.len(),
{
    if s.len() > 0 && is_digit_char(s[0]) {
        drop_digits(s.drop_first())
    } else {
        s
    }
}

/// A separator stripped from the front of a cleaned title.
pub open spec fn is_title_sep(c: char) -> bool {
    c == '-' || c == '.' || c == '_' || c == ' '
}

/// `s` with its leading title separators removed.
pub open spec fn drop_seps(s: Seq<char>) -> Seq<char>
    decreases s.len(),
{
    if s.len() > 0 && is_title_sep(s[0]) {
        drop_seps(s.drop_first())
    } else {
        s
    }
}

/// A file name cleaned for use as a title: leading track numbers and
/// separators removed and whitespace trimmed, falling back to the name
/// itself when nothing is left.
pub open spec fn clean_title_spec(s: Seq<char>) -> Seq<char> {
    let t = trim_spec(drop_seps(drop_digits(s)));
    if t.len() == 0 {
        s
    } else {
        t
    }
}

proof fn lemma_drop_digits_at(s: Seq<char>, a: int)
    requires
        0 <= a <= s.len(),
        forall|j: int| 0 <= j < a ==> is_digit_char(s[j]),
        a < s.len() ==> !is_digit_char(s[a]),
    ensures
        drop_digits(s) == s.subrange(a, s.len() as int),
    decreases a,
{
    if a == 0 {
        assert(s.subrange(0, s.len() as int) =~= s);
    } else {
        let t = s.drop_first();
        lemma_drop_digits_at(t, a - 1);
        assert(t.subrange(a - 1, t.len() as int) =~= s.subrange(a, s.len() as int));
    }
}

proof fn lemma_drop_seps_at(s: Seq<char>, a: int)
    requires
        0 <= a <= s.len(),
        forall|j: int| 0 <= j < a ==> is_title_sep(s[j]),
        a < s.len() ==> !is_title_sep(s[a]),
    ensures
        drop_seps(s) == s.subrange(a, s.len() as int),
    decreases a,
{
    if a == 0 {
        assert(s.subrange(0, s.len() as int) =~= s);
    } else {
        let t = s.drop_first();
        lemma_drop_seps_at(t, a - 1);
        assert(t.subrange(a - 1, t.len() as int) =~= s.subrange(a, s.len() as int));
    }
}

/// The candidate an artist separator yields: the trimmed text before its
/// first occurrence in the stem.
pub open spec fn artist_candidate(stem: Seq<char>, sep: Seq<char>) -> Seq<char> {
    trim_spec(stem.subrange(0, first_match_index(stem, sep)))
}

/// The separator occurs in the stem and the text before it is a usable
/// artist name: non-empty and not just a track number.
pub open spec fn sep_yields_artist(stem: Seq<char>, sep: Seq<char>) -> bool {
    has_substring(stem, sep) && artist_candidate(stem, sep).len() > 0 && !(forall|i: int|
        0 <= i < artist_candidate(stem, sep).len() ==> is_digit_char(
            #[trigger] artist_candidate(stem, sep)[i],
        ))
}

/// The artist read from a file-name stem: the separators are tried in order
/// and the first usable candidate wins.
pub open spec fn filename_artist(stem: Seq<char>) -> Option<Seq<char>> {
    if sep_yields_artist(stem, " - "@) {
        Option::Some(artist_candidate(stem, " - "@))
    } else if sep_yields_artist(stem, " \u{2013} "@) {
        Option::Some(artist_candidate(stem, " \u{2013} "@))
    } else if sep_yields_artist(stem, " _ "@) {
        Option::Some(artist_candidate(stem, " _ "@))
    } else {
        Option::None
    }
}

/// The artist field produced for a computed fallback.
pub open spec fn artist_field_matches(expected: Option<Seq<char>>, field: Option<String>) -> bool {
    match expected {
        Option::Some(x) => field matches Some(f) && f@ == x,
        Option::None => field is None,
    }
}

/// Decides whether `c` is a title separator.
fn is_sep_char(c: char) -> (r: bool)
    ensures
        r == is_title_sep(c),
{
    c == '-' || c == '.' || c == '_' || c == ' '
}

/// Service for reading the local music library.
pub struct FileService;

impl FileService {
    /// Cleans a file name for use as a title: strips a leading track number
    /// and the separators after it, trims whitespace, and falls back to the
    /// original name when nothing remains.
    pub fn clean_filename_for_title(filename: &str) -> (r: String)
        ensures
            r@ == clean_title_spec(filename@),
    {
        let n = filename.unicode_len();
        let mut a: usize = 0;
        while a < n && crate::text::is_digit_exec(filename.get_char(a))
            invariant
                a <= n,
                n == filename@.len(),
                forall|j: int| 0 <= j < a ==> is_digit_char(filename@[j]),
            decreases n - a,
        {
            a += 1;
        }
        proof {
            lemma_drop_digits_at(filename@, a as int);
        }
        let rest = filename.substring_char(a, n);
        let m = rest.unicode_len();
        let mut b: usize = 0;
        while b < m && is_sep_char(rest.get_char(b))
            invariant
                b <= m,
                m == rest@.len(),
                forall|j: int| 0 <= j < b ==> is_title_sep(rest@[j]),
            decreases m - b,
        {
            b += 1;
        }
        proof {
            lemma_drop_seps_at(rest@, b as int);
        }
        let tail = rest.substring_char(b, m);
        let cleaned = trim_spaces(tail);
        if cleaned.as_str().unicode_len() == 0 {
            filename.to_owned()
        } else {
            cleaned
        }
    }

    /// Tries to read an artist from a file-name stem written as
    /// "Artist - Title" (also with an en dash or an underscore as the
    /// separator): the separators are tried in order, and the first whose
    /// trimmed prefix is non-empty and not just a track number wins.
    pub fn extract_artist_from_filename(stem: &str) -> (r: Option<String>)
        ensures
            match r {
                Some(a) => (filename_artist(stem@) matches Option::Some(x) && a@ == x),
                None => filename_artist(stem@) is None,
            },
    {
        let mut k: usize = 0;
        while k < 3
            invariant
                k <= 3,
                k >= 1 ==> !sep_yields_artist(stem@, " - "@),
                k >= 2 ==> !sep_yields_artist(stem@, " \u{2013} "@),
                k >= 3 ==> !sep_yields_artist(stem@, " _ "@),
            decreases 3 - k,
        {
            let sep: &str = if k == 0 {
                " - "
            } else if k == 1 {
                " \u{2013} "
            } else {
                " _ "
            };
            match find_substring(stem, sep) {
                Some(idx) => {
                    let n = stem.unicode_len();
                    let head = stem.substring_char(0, idx);
                    let artist = trim_spaces(head);
                    proof {
                        lemma_first_match_at(stem@, sep@, idx as int);
                        assert(artist@ == artist_candidate(stem@, sep@));
                    }
                    let am = artist.as_str().unicode_len();
                    if am > 0 {
                        let v = chars_of(artist.as_str());
                        let mut all_num = true;
                        let mut i: usize = 0;
                        while i < v.len()
                            invariant
                                i <= v@.len(),
                                v@ == artist@,
                                all_num ==> forall|j: int| 0 <= j < i ==> is_digit_char(v@[j]),
                                !all_num ==> !(forall|j: int|
                                    0 <= j < v@.len() ==> is_digit_char(v@[j])),
                            decreases v@.len() - i,
                        {
                            if !crate::text::is_digit_exec(v[i]) {
                                proof {
                                    assert(!is_digit_char(v@[i as int]));
                                }
                                all_num = false;
                            }
                            i += 1;
                        }
                        if !all_num {
                            proof {
                                assert(sep_yields_artist(stem@, sep@));
                                assert(filename_artist(stem@) matches Option::Some(x) && artist@
                                    == x);
                            }
                            return Some(artist);
                        }
                        proof {
                            assert(!sep_yields_artist(stem@, sep@));
                        }
                    } else {
                        proof {
                            assert(artist_candidate(stem@, sep@).len() == 0);
                            assert(!sep_yields_artist(stem@, sep@));
                        }
                    }
                },
                None => {
                    proof {
                        assert(!has_substring(stem@, sep@));
                        assert(!sep_yields_artist(stem@, sep@));
                    }
                },
            }
            k += 1;
        }
        None
    }

    /// Fallback metadata built from the path alone, when the tag could not
    /// be read: a cleaned title and the artist read from the file name,
    /// nothing else.
    pub fn create_fallback_metadata(file_path: &str) -> (r: MusicFile)
        ensures
            r.path@ == file_path@,
            r.title matches Some(t) && t@ == clean_title_spec(stem_of(file_path@)),
            artist_field_matches(filename_artist(stem_of(file_path@)), r.artist),
            r.album is None && r.duration is None && r.year is None && r.genre is None
                && r.album_art is None,
    {
        let stem = file_stem(file_path);
        let title = Self::clean_filename_for_title(stem.as_str());
        let artist = Self::extract_artist_from_filename(stem.as_str());
        MusicFile {
            path: file_path.to_owned(),
            title: Some(title),
            artist,
            album: None,
            duration: None,
            year: None,
            genre: None,
            album_art: None,
        }
    }

    /// Guards a folder scan's file count against its ceiling.
    pub fn check_scan_limit(count: usize) -> (r: Result<(), AppError>)
        ensures
            r is Ok <==> count < MAX_FILES_PER_SCAN,
            r is Err ==> r->Err_0 == AppError::File(
                FileError::ScanLimitExceeded(MAX_FILES_PER_SCAN),
            ),
    {
        if count >= MAX_FILES_PER_SCAN {
            Err(AppError::File(FileError::ScanLimitExceeded(MAX_FILES_PER_SCAN)))
        } else {
            Ok(())
        }
    }
}

} // verus!

verus! {

/// What base64's standard engine produces for a byte sequence; a function of
/// the bytes alone.
pub uninterp spec fn base64_standard_of(bytes: Seq<u8>) -> Seq<char>;

/// Relies on base64's `Engine::encode` with the standard alphabet and
/// padding: the result is a function of the bytes alone, four characters for
/// every started group of three bytes.
#[verifier::external_body]
fn base64_encode(bytes: &Vec<u8>) -> (r: String)
    ensures
        r@ == base64_standard_of(bytes@),
        r@.len() == 4 * ((bytes@.len() + 2) / 3),
{
    base64::engine::Engine::encode(&base64::engine::general_purpose::STANDARD, bytes)
}

/// The MIME type string an art kind renders to (unknown kinds fall back to
/// JPEG, as the presentation layer expects an image type).
pub open spec fn mime_str(kind: ArtMimeKind) -> Seq<char> {
    match kind {
        ArtMimeKind::Jpeg => "image/jpeg"@,
        ArtMimeKind::Png => "image/png"@,
        ArtMimeKind::Bmp => "image/bmp"@,
        ArtMimeKind::Gif => "image/gif"@,
        ArtMimeKind::Other => "image/jpeg"@,
    }
}

/// The data URL built for a piece of album art.
pub open spec fn data_url_spec(art: AlbumArt) -> Seq<char> {
    "data:"@ + mime_str(art.mime) + ";base64,"@ + base64_standard_of(art.data@)
}

/// The album-art field produced for an optional cover.
pub open spec fn art_matches(cover: Option<AlbumArt>, field: Option<String>) -> bool {
    match cover {
        Some(a) => field matches Some(u) && u@ == data_url_spec(a),
        None => field is None,
    }
}

/// The title chosen for a file: the tag's title when it has one that is not
/// just whitespace, the cleaned file name otherwise.
pub open spec fn chosen_title(tag_title: Option<String>, path: Seq<char>) -> Seq<char> {
    match tag_title {
        Some(t) => {
            if trim_spec(t@).len() > 0 {
                t@
            } else {
                clean_title_spec(stem_of(path))
            }
        },
        None => clean_title_spec(stem_of(path)),
    }
}

impl FileService {
    /// Converts album art into a data URL for the presentation layer.
    pub fn extract_album_art(cover: &Option<AlbumArt>) -> (r: Option<String>)
        ensures
            art_matches(*cover, r),
    {
        match cover {
            Some(art) => {
                let mime: &str = match art.mime {
                    ArtMimeKind::Jpeg => "image/jpeg",
                    ArtMimeKind::Png => "image/png",
                    ArtMimeKind::Bmp => "image/bmp",
                    ArtMimeKind::Gif => "image/gif",
                    ArtMimeKind::Other => "image/jpeg",
                };
                let encoded = base64_encode(&art.data);
                let url = String::from_str("data:").concat(mime).concat(";base64,").concat(
                    encoded.as_str(),
                );
                Some(url)
            },
            None => None,
        }
    }

    /// Builds the `MusicFile` model from the values read out of a tag,
    /// falling back to file-name heuristics for a missing title or artist.
    pub fn extract_metadata_from_tag(file_path: &str, tag: &TagData) -> (r: MusicFile)
        ensures
            r.path@ == file_path@,
            (r.title matches Some(x) && x@ == chosen_title(tag.title, file_path@)),
            (tag.artist matches Some(a) && trim_spec(a@).len() > 0) ==> r.artist == tag.artist,
            tag.artist is None ==> artist_field_matches(
                filename_artist(stem_of(file_path@)),
                r.artist,
            ),
            tag.artist matches Some(a) ==> (trim_spec(a@).len() == 0 ==> artist_field_matches(
                filename_artist(stem_of(file_path@)),
                r.artist,
            )),
            r.album == tag.album,
            r.duration == tag.duration,
            r.year == tag.year,
            r.genre == tag.genre,
            art_matches(tag.album_cover, r.album_art),
    {
        let album_art = Self::extract_album_art(&tag.album_cover);
        let title: String = match &tag.title {
            Some(t) => {
                let trimmed = trim_spaces(t.as_str());
                if trimmed.as_str().unicode_len() > 0 {
                    t.clone()
                } else {
                    let stem = file_stem(file_path);
                    Self::clean_filename_for_title(stem.as_str())
                }
            },
            None => {
                let stem = file_stem(file_path);
                Self::clean_filename_for_title(stem.as_str())
            },
        };
        let artist: Option<String> = match &tag.artist {
            Some(a) => {
                let trimmed = trim_spaces(a.as_str());
                if trimmed.as_str().unicode_len() > 0 {
                    Some(a.clone())
                } else {
                    let stem = file_stem(file_path);
                    Self::extract_artist_from_filename(stem.as_str())
                }
            },
            None => {
                let stem = file_stem(file_path);
                Self::extract_artist_from_filename(stem.as_str())
            },
        };
        let album: Option<String> = match &tag.album {
            Some(a) => Some(a.clone()),
            None => None,
        };
        let genre: Option<String> = match &tag.genre {
            Some(g) => Some(g.clone()),
            None => None,
        };
        MusicFile {
            path: file_path.to_owned(),
            title: Some(title),
            artist,
            album,
            duration: tag.duration,
            year: tag.year,
            genre,
            album_art,
        }
    }

    /// Builds the metadata model for one file: the path must be an existing,
    /// traversal-free regular file with a supported audio extension; the tag
    /// values (read by the embedding application, `None` when the tag could
    /// not be read) are then assembled, with file-name heuristics as the
    /// fallback.
    pub fn get_audio_metadata(
        file_path: &str,
        path_exists: bool,
        is_file: bool,
        tag: Option<&TagData>,
    ) -> (r: Result<MusicFile, AppError>)
        ensures
            r is Ok <==> path_exists && !has_traversal(file_path@) && is_file && is_audio_path(
                file_path@,
            ),
            (path_exists && !has_traversal(file_path@) && is_file && !is_audio_path(file_path@))
                ==> (r matches Err(AppError::File(FileError::UnsupportedFormat(x))) && x@ == (
            match extension_of(file_path@) {
                Some(e) => e,
                None => "unknown"@,
            })),
            tag matches Some(t) ==> (r matches Ok(m) ==> m.path@ == file_path@ && (
            m.title matches Some(x) && x@ == chosen_title(t.title, file_path@)) && ((
            t.artist matches Some(a) && trim_spec(a@).len() > 0) ==> m.artist == t.artist) && (
            t.artist is None ==> artist_field_matches(
                filename_artist(stem_of(file_path@)),
                m.artist,
            )) && m.album == t.album && m.duration == t.duration && m.year == t.year && m.genre
                == t.genre && art_matches(t.album_cover, m.album_art)),
            tag is None ==> (r matches Ok(m) ==> m.path@ == file_path@ && (m.title matches Some(x)
                && x@ == clean_title_spec(stem_of(file_path@))) && artist_field_matches(
                filename_artist(stem_of(file_path@)),
                m.artist,
            ) && m.album is None && m.duration is None && m.year is None && m.genre is None
                && m.album_art is None),
    {
        match validate_file(file_path, path_exists, is_file) {
            Err(e) => {
                return Err(e);
            },
            Ok(_) => {},
        }
        if !is_audio_file(file_path) {
            let ext: String = match crate::paths::file_extension(file_path) {
                Some(e) => e,
                None => String::from_str("unknown"),
            };
            return Err(AppError::File(FileError::UnsupportedFormat(ext)));
        }
        match tag {
            Some(t) => Ok(Self::extract_metadata_from_tag(file_path, t)),
            None => Ok(Self::create_fallback_metadata(file_path)),
        }
    }
}

} // verus!
