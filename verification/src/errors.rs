//! Typed errors for the library, with exact user-facing messages.
//!
//! Each error kind renders to a fixed message through `message`; the
//! application-level `AppError::to_user_message` picks the inner message.

use vstd::prelude::*;
use vstd::string::StringExecFns;

use crate::text::dec_str;
use crate::text::fmt_u64;

verus! {

/// File-system related errors.
#[derive(Debug, Clone, PartialEq, Eq)]
pub enum FileError {
    /// A path that should exist does not.
    NotFound(String),
    /// A parent-traversal sequence was found in a user-supplied path.
    PathTraversal(String),
    /// A path could not be used.
    InvalidPath(String),
    /// The path exists but is not a directory.
    NotDirectory(String),
    /// The path exists but is not a regular file.
    NotFile(String),
    /// The file's extension is not a supported audio format.
    UnsupportedFormat(String),
    /// Audio metadata could not be read from the file.
    MetadataRead(String),
    /// The platform could not canonicalize the path. The library models
    /// paths as the text it was given and never resolves links itself; the
    /// embedding application canonicalizes a validated path and reports a
    /// failure through this kind.
    Canonicalize(String),
    /// A folder scan hit the file-count ceiling.
    ScanLimitExceeded(usize),
    /// A folder scan hit the directory-depth ceiling.
    ScanDepthExceeded(usize),
}

/// Remote-catalog (Spotify) related errors.
#[derive(Debug, Clone, PartialEq, Eq)]
pub enum SpotifyError {
    NotAuthenticated,
    AuthenticationFailed(String),
    GetProfile(String),
    GetPlaylists(String),
    GetSavedTracks(String),
    GetTopArtists(String),
    GetTopTracks(String),
    OAuthTimeout(u64),
    OAuthServer(String),
    InvalidAuthCode,
    TokenExchange(String),
    CredentialsNotFound,
    ClientLock(String),
}

/// Download related errors.
#[derive(Debug, Clone, PartialEq, Eq)]
pub enum DownloadError {
    /// The external converter executable is missing or unresponsive.
    SpotdlNotInstalled,
    /// A track reference does not have the remote-catalog URL shape.
    InvalidUrl(String),
    /// The requested output format is not in the allowed set.
    InvalidFormat(String),
    /// A bounded wait elapsed; carries the bound in seconds.
    Timeout(u64),
    /// A download failed; carries the classified message.
    Failed(String),
    /// The audio source provider rejected the request.
    YouTubeError,
    /// The identifier count exceeds the batch ceiling; carries the ceiling.
    TooManySongs(usize),
    /// The supplied output directory does not exist.
    OutputDirNotFound(String),
}

/// Application-level error: every failure a caller can see.
#[derive(Debug, Clone, PartialEq, Eq)]
pub enum AppError {
    File(FileError),
    Spotify(SpotifyError),
    Download(DownloadError),
    Validation(String),
    Concurrency(String),
    Io(String),
    Unknown(String),
}

/// The message `FileError::message` renders.
pub open spec fn file_error_message(e: FileError) -> Seq<char> {
    match e {
        FileError::NotFound(p) => "Path does not exist: "@ + p@,
        FileError::PathTraversal(p) => "Path traversal attempt detected: "@ + p@,
        FileError::InvalidPath(p) => "Invalid path: "@ + p@,
        FileError::NotDirectory(p) => "Not a directory: "@ + p@,
        FileError::NotFile(p) => "Not a file: "@ + p@,
        FileError::UnsupportedFormat(f) => "Unsupported file format: "@ + f@,
        FileError::MetadataRead(m) => "Failed to read metadata: "@ + m@,
        FileError::Canonicalize(m) => "Failed to canonicalize path: "@ + m@,
        FileError::ScanLimitExceeded(n) => "Scan limit exceeded: max "@ + dec_str(n as nat)
            + " files"@,
        FileError::ScanDepthExceeded(n) => "Scan depth exceeded: max "@ + dec_str(n as nat)
            + " levels"@,
    }
}

/// The message `SpotifyError::message` renders.
pub open spec fn spotify_error_message(e: SpotifyError) -> Seq<char> {
    match e {
        SpotifyError::NotAuthenticated => "Not authenticated. Please authenticate first."@,
        SpotifyError::AuthenticationFailed(m) => "Authentication failed: "@ + m@,
        SpotifyError::GetProfile(m) => "Failed to get user profile: "@ + m@,
        SpotifyError::GetPlaylists(m) => "Failed to get playlists: "@ + m@,
        SpotifyError::GetSavedTracks(m) => "Failed to get saved tracks: "@ + m@,
        SpotifyError::GetTopArtists(m) => "Failed to get top artists: "@ + m@,
        SpotifyError::GetTopTracks(m) => "Failed to get top tracks: "@ + m@,
        SpotifyError::OAuthTimeout(s) => "OAuth timeout after "@ + dec_str(s as nat) + " seconds"@,
        SpotifyError::OAuthServer(m) => "OAuth server error: "@ + m@,
        SpotifyError::InvalidAuthCode => "Invalid authorization code"@,
        SpotifyError::TokenExchange(m) => "Failed to exchange token: "@ + m@,
        SpotifyError::CredentialsNotFound => "Credentials not found in environment"@,
        SpotifyError::ClientLock(m) => "Concurrency error accessing Spotify client: "@ + m@,
    }
}

/// The message `DownloadError::message` renders.
pub open spec fn download_error_message(e: DownloadError) -> Seq<char> {
    match e {
        DownloadError::SpotdlNotInstalled =>
            "spotdl is not installed. Install with: pip install spotdl yt-dlp"@,
        DownloadError::InvalidUrl(u) => "Invalid Spotify URL: "@ + u@,
        DownloadError::InvalidFormat(m) => "Invalid output format: "@ + m@,
        DownloadError::Timeout(s) => "Download timeout after "@ + dec_str(s as nat) + " seconds"@,
        DownloadError::Failed(m) => "Download failed: "@ + m@,
        DownloadError::YouTubeError =>
            "YouTube download error. Update yt-dlp: pip install --upgrade yt-dlp spotdl"@,
        DownloadError::TooManySongs(n) => "Too many songs requested: max "@ + dec_str(n as nat),
        DownloadError::OutputDirNotFound(p) => "Output directory does not exist: "@ + p@,
    }
}

/// The message `AppError::to_user_message` renders.
pub open spec fn app_error_message(e: AppError) -> Seq<char> {
    match e {
        AppError::File(inner) => file_error_message(inner),
        AppError::Spotify(inner) => spotify_error_message(inner),
        AppError::Download(inner) => download_error_message(inner),
        AppError::Validation(m) => m@,
        AppError::Concurrency(m) => "Concurrency error: "@ + m@,
        AppError::Io(m) => "IO error: "@ + m@,
        AppError::Unknown(m) => "Unknown error: "@ + m@,
    }
}

impl FileError {
    /// Renders this error as its user-facing message.
    pub fn message(&self) -> (r: String)
        ensures
            r@ == file_error_message(*self),
    {
        match self {
            FileError::NotFound(p) => String::from_str("Path does not exist: ").concat(p.as_str()),
            FileError::PathTraversal(p) => String::from_str(
                "Path traversal attempt detected: ",
            ).concat(p.as_str()),
            FileError::InvalidPath(p) => String::from_str("Invalid path: ").concat(p.as_str()),
            FileError::NotDirectory(p) => String::from_str("Not a directory: ").concat(p.as_str()),
            FileError::NotFile(p) => String::from_str("Not a file: ").concat(p.as_str()),
            FileError::UnsupportedFormat(f) => String::from_str(
                "Unsupported file format: ",
            ).concat(f.as_str()),
            FileError::MetadataRead(m) => String::from_str(
                "Failed to read metadata: ",
            ).concat(m.as_str()),
            FileError::Canonicalize(m) => String::from_str(
                "Failed to canonicalize path: ",
            ).concat(m.as_str()),
            FileError::ScanLimitExceeded(n) => {
                let num = fmt_u64(*n as u64);
                String::from_str("Scan limit exceeded: max ").concat(num.as_str()).concat(" files")
            },
            FileError::ScanDepthExceeded(n) => {
                let num = fmt_u64(*n as u64);
                String::from_str("Scan depth exceeded: max ").concat(num.as_str()).concat(" levels")
            },
        }
    }
}

impl SpotifyError {
    /// Renders this error as its user-facing message.
    pub fn message(&self) -> (r: String)
        ensures
            r@ == spotify_error_message(*self),
    {
        match self {
            SpotifyError::NotAuthenticated => String::from_str(
                "Not authenticated. Please authenticate first.",
            ),
            SpotifyError::AuthenticationFailed(m) => String::from_str(
                "Authentication failed: ",
            ).concat(m.as_str()),
            SpotifyError::GetProfile(m) => String::from_str(
                "Failed to get user profile: ",
            ).concat(m.as_str()),
            SpotifyError::GetPlaylists(m) => String::from_str(
                "Failed to get playlists: ",
            ).concat(m.as_str()),
            SpotifyError::GetSavedTracks(m) => String::from_str(
                "Failed to get saved tracks: ",
            ).concat(m.as_str()),
            SpotifyError::GetTopArtists(m) => String::from_str(
                "Failed to get top artists: ",
            ).concat(m.as_str()),
            SpotifyError::GetTopTracks(m) => String::from_str(
                "Failed to get top tracks: ",
            ).concat(m.as_str()),
            SpotifyError::OAuthTimeout(s) => {
                let num = fmt_u64(*s);
                String::from_str("OAuth timeout after ").concat(num.as_str()).concat(" seconds")
            },
            SpotifyError::OAuthServer(m) => String::from_str(
                "OAuth server error: ",
            ).concat(m.as_str()),
            SpotifyError::InvalidAuthCode => String::from_str("Invalid authorization code"),
            SpotifyError::TokenExchange(m) => String::from_str(
                "Failed to exchange token: ",
            ).concat(m.as_str()),
            SpotifyError::CredentialsNotFound => String::from_str(
                "Credentials not found in environment",
            ),
            SpotifyError::ClientLock(m) => String::from_str(
                "Concurrency error accessing Spotify client: ",
            ).concat(m.as_str()),
        }
    }
}

impl DownloadError {
    /// Renders this error as its user-facing message.
    pub fn message(&self) -> (r: String)
        ensures
            r@ == download_error_message(*self),
    {
        match self {
            DownloadError::SpotdlNotInstalled => String::from_str(
                "spotdl is not installed. Install with: pip install spotdl yt-dlp",
            ),
            DownloadError::InvalidUrl(u) => String::from_str(
                "Invalid Spotify URL: ",
            ).concat(u.as_str()),
            DownloadError::InvalidFormat(m) => String::from_str(
                "Invalid output format: ",
            ).concat(m.as_str()),
            DownloadError::Timeout(s) => {
                let num = fmt_u64(*s);
                String::from_str("Download timeout after ").concat(num.as_str()).concat(" seconds")
            },
            DownloadError::Failed(m) => String::from_str("Download failed: ").concat(m.as_str()),
            DownloadError::YouTubeError => String::from_str(
                "YouTube download error. Update yt-dlp: pip install --upgrade yt-dlp spotdl",
            ),
            DownloadError::TooManySongs(n) => {
                let num = fmt_u64(*n as u64);
                String::from_str("Too many songs requested: max ").concat(num.as_str())
            },
            DownloadError::OutputDirNotFound(p) => String::from_str(
                "Output directory does not exist: ",
            ).concat(p.as_str()),
        }
    }
}

impl AppError {
    /// Converts the error to a user-facing string for the presentation layer.
    pub fn to_user_message(&self) -> (r: String)
        ensures
            r@ == app_error_message(*self),
    {
        match self {
            AppError::File(e) => e.message(),
            AppError::Spotify(e) => e.message(),
            AppError::Download(e) => e.message(),
            AppError::Validation(m) => m.clone(),
            AppError::Concurrency(m) => String::from_str("Concurrency error: ").concat(m.as_str()),
            AppError::Io(m) => String::from_str("IO error: ").concat(m.as_str()),
            AppError::Unknown(m) => String::from_str("Unknown error: ").concat(m.as_str()),
        }
    }
}

} // verus!
