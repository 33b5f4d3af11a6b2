//! Input validation for download requests.
//!
//! Pure rules applied before any work starts: URL shape, allowed output
//! formats, batch-size ceiling, audio-extension checks, and the query
//! sanitizer for search terms handed to an external process.

use vstd::prelude::*;
use vstd::string::StrSliceExecFns;

use crate::errors::AppError;
use crate::errors::DownloadError;
use crate::errors::FileError;
use crate::text::char_is_alphanumeric;
use crate::text::char_is_whitespace;
use crate::text::first_index_of;
use crate::text::index_of_char;
use crate::text::last_index_of;
use crate::text::last_index_of_char;
use crate::text::lemma_first_index_absent;
use crate::text::lemma_first_index_at;
use crate::text::lemma_last_index_absent;
use crate::text::lemma_last_index_at;
use crate::text::lower_spec;
use crate::text::starts_with;
use crate::text::str_eq;
use crate::text::str_starts_with;
use crate::text::unicode_alphanumeric;
use crate::text::unicode_whitespace;
use crate::text::ascii_lowercase;

verus! {

/// The URL shape every remote track reference must have.
pub open spec fn spotify_track_prefix() -> Seq<char> {
    "https://open.spotify.com/track/"@
}

/// `f` is one of the allowed download output formats.
pub open spec fn valid_format(f: Seq<char>) -> bool {
    f == "mp3"@ || f == "flac"@ || f == "ogg"@ || f == "m4a"@ || f == "opus"@
}

/// `ext` is a supported audio file extension, up to ASCII case.
pub open spec fn valid_audio_extension(ext: Seq<char>) -> bool {
    let l = lower_spec(ext);
    l == "mp3"@ || l == "m4a"@ || l == "flac"@ || l == "wav"@ || l == "ogg"@ || l == "aac"@
        || l == "wma"@
}

/// Validates that a URL is a proper remote-catalog track URL.
pub fn validate_spotify_url(url: &str) -> (r: Result<(), AppError>)
    ensures
        r is Ok <==> starts_with(url@, spotify_track_prefix()),
        r is Err ==> (r->Err_0 matches AppError::Download(DownloadError::InvalidUrl(u)) && u@
            == url@),
{
    if !str_starts_with(url, "https://open.spotify.com/track/") {
        return Err(AppError::Download(DownloadError::InvalidUrl(url.to_owned())));
    }
    Ok(())
}

/// Validates a requested download output format.
pub fn validate_download_format(format: &str) -> (r: Result<(), AppError>)
    ensures
        r is Ok <==> valid_format(format@),
        r is Err ==> (r->Err_0 matches AppError::Download(DownloadError::InvalidFormat(m)) && m@
            == "Use one of: mp3, flac, ogg, m4a, opus"@),
{
    if str_eq(format, "mp3") || str_eq(format, "flac") || str_eq(format, "ogg") || str_eq(
        format,
        "m4a",
    ) || str_eq(format, "opus") {
        Ok(())
    } else {
        Err(
            AppError::Download(
                DownloadError::InvalidFormat(
                    "Use one of: mp3, flac, ogg, m4a, opus".to_owned(),
                ),
            ),
        )
    }
}

/// Validates an audio file extension.
pub fn validate_audio_extension(ext: &str) -> (r: Result<(), AppError>)
    ensures
        r is Ok <==> valid_audio_extension(ext@),
        r is Err ==> (r->Err_0 matches AppError::File(FileError::UnsupportedFormat(e)) && e@
            == ext@),
{
    let lower = ascii_lowercase(ext);
    let l = lower.as_str();
    if str_eq(l, "mp3") || str_eq(l, "m4a") || str_eq(l, "flac") || str_eq(l, "wav") || str_eq(
        l,
        "ogg",
    ) || str_eq(l, "aac") || str_eq(l, "wma") {
        Ok(())
    } else {
        Err(AppError::File(FileError::UnsupportedFormat(ext.to_owned())))
    }
}

/// Validates the identifier count of a batch against its ceiling.
pub fn validate_batch_size(count: usize, max: usize) -> (r: Result<(), AppError>)
    ensures
        r is Ok <==> count <= max,
        r is Err ==> r->Err_0 == AppError::Download(DownloadError::TooManySongs(max)),
{
    if count > max {
        Err(AppError::Download(DownloadError::TooManySongs(max)))
    } else {
        Ok(())
    }
}

/// The track identifier inside a remote-catalog URL: the path segment after
/// the last `/`, with any query string after a `?` removed.
pub open spec fn song_id_of(url: Seq<char>) -> Seq<char> {
    let tail = url.subrange(last_index_of(url, '/') + 1, url.len() as int);
    tail.subrange(0, first_index_of(tail, '?'))
}

/// Extracts the track identifier from a remote-catalog URL.
pub fn extract_song_id(url: &str) -> (r: String)
    ensures
        r@ == song_id_of(url@),
{
    let n = url.unicode_len();
    let start: usize = match last_index_of_char(url, '/') {
        Some(i) => {
            proof {
                lemma_last_index_at(url@, '/', i as int);
            }
            i + 1
        },
        None => {
            proof {
                lemma_last_index_absent(url@, '/');
            }
            0
        },
    };
    let tail = url.substring_char(start, n);
    let tn = tail.unicode_len();
    let stop: usize = match index_of_char(tail, '?') {
        Some(i) => {
            proof {
                lemma_first_index_at(tail@, '?', i as int);
            }
            i
        },
        None => {
            proof {
                lemma_first_index_absent(tail@, '?');
            }
            tn
        },
    };
    let id = tail.substring_char(0, stop);
    id.to_owned()
}

/// A character the search-query sanitizer keeps.
pub open spec fn query_char_ok(c: char) -> bool {
    unicode_alphanumeric(c) || unicode_whitespace(c) || c == '-' || c == '\''
}

/// Sanitized characters of `s`: the subsequence of characters the sanitizer
/// keeps, in order.
pub open spec fn kept_chars(s: Seq<char>) -> Seq<char>
    decreases s.len(),
{
    if s.len() == 0 {
        s
    } else if query_char_ok(s.last()) {
        kept_chars(s.drop_last()).push(s.last())
    } else {
        kept_chars(s.drop_last())
    }
}

/// Sanitized form of a search query: every character outside the kept set is
/// removed, and the result is cut off after 200 characters.
pub open spec fn sanitize_spec(s: Seq<char>) -> Seq<char> {
    let f = kept_chars(s);
    if f.len() <= 200 {
        f
    } else {
        f.take(200)
    }
}

proof fn lemma_kept_chars_le(s: Seq<char>)
    ensures
        kept_chars(s).len() <= s.len(),
    decreases s.len(),
{
    if s.len() > 0 {
        lemma_kept_chars_le(s.drop_last());
    }
}

proof fn lemma_kept_chars_add(a: Seq<char>, b: Seq<char>)
    ensures
        kept_chars(a + b) == kept_chars(a) + kept_chars(b),
    decreases b.len(),
{
    if b.len() == 0 {
        assert(a + b =~= a);
        assert(kept_chars(a) + b =~= kept_chars(a));
    } else {
        lemma_kept_chars_add(a, b.drop_last());
        assert((a + b).drop_last() =~= a + b.drop_last());
        assert((a + b).last() == b.last());
        if query_char_ok(b.last()) {
            assert(kept_chars(a) + kept_chars(b) =~= (kept_chars(a) + kept_chars(
                b.drop_last(),
            )).push(b.last()));
        }
    }
}

/// Sanitizes a search query before it is handed to an external process.
pub fn sanitize_query(query: &str) -> (r: String)
    ensures
        r@ == sanitize_spec(query@),
{
    let n = query.unicode_len();
    let mut out: Vec<char> = Vec::new();
    let mut i: usize = 0;
    while i < n && out.len() < 200
        invariant
            i <= n,
            n == query@.len(),
            out@ == kept_chars(query@.subrange(0, i as int)),
            out@.len() <= 200,
        decreases n - i,
    {
        let c = query.get_char(i);
        let keep = char_is_alphanumeric(c) || char_is_whitespace(c) || c == '-' || c == '\'';
        proof {
            let prefix = query@.subrange(0, i as int);
            assert(query@.subrange(0, i + 1).drop_last() =~= prefix);
        }
        if keep {
            out.push(c);
            assert(out@ == kept_chars(query@.subrange(0, i + 1)));
        } else {
            assert(out@ == kept_chars(query@.subrange(0, i + 1)));
        }
        i += 1;
    }
    proof {
        if i == n {
            assert(query@.subrange(0, n as int) =~= query@);
            lemma_kept_chars_le(query@);
        } else {
            // Stopped because 200 characters were already kept.
            let prefix = query@.subrange(0, i as int);
            let rest = query@.subrange(i as int, n as int);
            assert(query@ =~= prefix + rest);
            lemma_kept_chars_add(prefix, rest);
            assert(kept_chars(query@).take(200) =~= kept_chars(prefix));
        }
    }
    crate::text::string_from_chars(&out)
}

} // verus!
