//! Remote-catalog domain models and the pure pieces of the catalog service:
//! OAuth callback parsing and streaming-progress arithmetic. The network and
//! OAuth plumbing themselves are external collaborators.

use vstd::prelude::*;
use vstd::string::StrSliceExecFns;

use crate::errors::AppError;
use crate::errors::SpotifyError;
use crate::text::first_index_of;
use crate::text::first_match_index;
use crate::text::find_substring;
use crate::text::has_substring;
use crate::text::index_of_char;
use crate::text::lemma_first_index_absent;
use crate::text::lemma_first_index_at;
use crate::text::lemma_first_match_at;

verus! {

/// Remote user profile information.
#[derive(Debug, Clone, PartialEq, Eq)]
pub struct SpotifyUserProfile {
    pub id: String,
    pub display_name: Option<String>,
    pub email: Option<String>,
    pub country: Option<String>,
    pub product: Option<String>,
    pub followers: u32,
    pub images: Vec<String>,
}

/// Remote playlist information.
#[derive(Debug, Clone, PartialEq, Eq)]
pub struct SpotifyPlaylist {
    pub id: String,
    pub name: String,
    pub description: Option<String>,
    pub owner: String,
    pub tracks_total: u32,
    pub images: Vec<String>,
    pub public: Option<bool>,
}

/// Remote track information.
#[derive(Debug, Clone, PartialEq, Eq)]
pub struct SpotifyTrack {
    pub id: Option<String>,
    pub name: String,
    pub artists: Vec<String>,
    pub album: String,
    pub album_image: Option<String>,
    pub duration_ms: u32,
    pub popularity: Option<u32>,
    pub preview_url: Option<String>,
    pub external_url: Option<String>,
}

/// Remote artist information.
#[derive(Debug, Clone, PartialEq, Eq)]
pub struct SpotifyArtist {
    pub id: String,
    pub name: String,
    pub genres: Vec<String>,
    pub popularity: u32,
    pub followers: u32,
    pub images: Vec<String>,
}

/// Batch size used when paging through saved tracks.
pub const SPOTIFY_BATCH_SIZE: u32 = 50;

/// Retries allowed for one page of a streamed listing.
pub const MAX_RETRY_ATTEMPTS: u32 = 3;

/// Service for remote-catalog operations.
pub struct SpotifyService;

/// The authorization code inside an OAuth callback URL: the text between
/// the first `code=` and the next `&` (or the end of the URL).
pub open spec fn auth_code_of(url: Seq<char>) -> Seq<char> {
    let i = first_match_index(url, "code="@);
    let tail = url.subrange(i + 5, url.len() as int);
    tail.subrange(0, first_index_of(tail, '&'))
}

impl SpotifyService {
    /// Extracts the authorization code from an OAuth callback URL; a URL
    /// without a `code=` parameter, or with an empty one, is rejected.
    pub fn extract_auth_code(url: &str) -> (r: Result<String, AppError>)
        ensures
            r is Ok <==> has_substring(url@, "code="@) && auth_code_of(url@).len() > 0,
            r matches Ok(c) ==> c@ == auth_code_of(url@),
            r is Err ==> r->Err_0 == AppError::Spotify(SpotifyError::InvalidAuthCode),
    {
        let n = url.unicode_len();
        let i: usize = match find_substring(url, "code=") {
            Some(i) => {
                proof {
                    lemma_first_match_at(url@, "code="@, i as int);
                }
                i
            },
            None => {
                return Err(AppError::Spotify(SpotifyError::InvalidAuthCode));
            },
        };
        proof {
            reveal_strlit("code=");
        }
        let tail = url.substring_char(i + 5, n);
        let tn = tail.unicode_len();
        let stop: usize = match index_of_char(tail, '&') {
            Some(j) => {
                proof {
                    lemma_first_index_at(tail@, '&', j as int);
                }
                j
            },
            None => {
                proof {
                    lemma_first_index_absent(tail@, '&');
                }
                tn
            },
        };
        if stop == 0 {
            return Err(AppError::Spotify(SpotifyError::InvalidAuthCode));
        }
        let code = tail.substring_char(0, stop);
        Ok(code.to_owned())
    }

    /// Percentage of tracks sent so far, rounded down; an empty listing
    /// counts as fully sent. Saturates at the integer ceiling.
    pub fn calculate_progress(total_sent: u32, total_tracks: u32) -> (r: u32)
        ensures
            total_tracks > 0 ==> r as int == (if total_sent as int * 100 / (total_tracks as int)
                <= u32::MAX {
                total_sent as int * 100 / (total_tracks as int)
            } else {
                u32::MAX as int
            }),
            total_tracks == 0 ==> r == 100,
    {
        if total_tracks > 0 {
            let v: u64 = (total_sent as u64) * 100 / (total_tracks as u64);
            if v > 0xffff_ffff {
                0xffff_ffff
            } else {
                v as u32
            }
        } else {
            100
        }
    }
}

} // verus!
