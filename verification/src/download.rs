//! Single-track execution model: external-process outcomes, their
//! classification into a status taxonomy, command construction, and the
//! progress events streamed to the presentation layer.

use vstd::prelude::*;
use vstd::string::StrSliceExecFns;
use vstd::string::StringExecFns;

use crate::errors::AppError;
use crate::errors::DownloadError;
use crate::text::contains_substring;
use crate::text::first_index_of;
use crate::text::has_substring;
use crate::text::index_of_char;
use crate::text::lemma_first_index_absent;
use crate::text::lemma_first_index_at;
use crate::text::take_chars;
use crate::text::trim_spaces;
use crate::text::trim_spec;
use crate::validation::song_id_of;
use crate::validation::extract_song_id;

verus! {

/// Hard wall-clock timeout for one external download, in seconds.
pub const SPOTDL_TIMEOUT_SECS: u64 = 300;

/// Timeout for the converter-tool version probe, in seconds.
pub const CHECK_TIMEOUT_SECS: u64 = 5;

/// Longest failure message kept from an external process, in characters.
pub const MAX_FAILURE_MESSAGE_CHARS: usize = 100;

/// Terminal state of one download task.
#[derive(Debug, Clone, PartialEq, Eq)]
pub enum TaskStatus {
    /// The process exited successfully and printed no provider-error marker.
    Succeeded,
    /// The process exited successfully but the audio source rejected the
    /// request (a provider-error marker was found in its output).
    ProviderError,
    /// The process exited with an error or could not be started; carries the
    /// classified message.
    ProcessFailure(String),
    /// The hard timeout elapsed before the process finished.
    TimedOut,
}

/// What happened to one external process run, as plain values.
#[derive(Debug, Clone, PartialEq, Eq)]
pub enum ProcessOutcome {
    /// The process ran to completion within the timeout.
    Completed { exit_success: bool, stdout: String, stderr: String },
    /// The process could not be spawned; carries the platform's error text.
    SpawnFailure(String),
    /// The timeout elapsed while waiting for the process. The waiting side
    /// gives up and classifies the task; the child process is not killed and
    /// may keep running in the background.
    TimedOut,
}

/// How one spawned task ended from the segment executor's point of view.
#[derive(Debug, Clone, PartialEq, Eq)]
pub enum TaskResult {
    /// The task ran and reported a terminal status.
    Finished(TaskStatus),
    /// The task aborted before reporting a result (a runtime join error).
    Crashed,
}

/// A task result that counts as a successful download.
pub open spec fn is_success(r: TaskResult) -> bool {
    r matches TaskResult::Finished(TaskStatus::Succeeded)
}

/// The process output carries one of the known provider-error markers.
pub open spec fn has_provider_error_marker(stdout: Seq<char>) -> bool {
    has_substring(stdout, "AudioProviderError"@) || has_substring(
        stdout,
        "YT-DLP download error"@,
    )
}

/// First line of `s`: everything before the first newline, with one trailing
/// carriage return removed.
pub open spec fn first_line(s: Seq<char>) -> Seq<char> {
    let l = s.subrange(0, first_index_of(s, '\n'));
    if l.len() > 0 && l.last() == '\r' {
        l.drop_last()
    } else {
        l
    }
}

/// The failure message kept for a process that exited with an error: the
/// first line of its standard error, cut off after 100 characters, or a
/// fixed message when nothing was printed.
pub open spec fn failure_message(stderr: Seq<char>) -> Seq<char> {
    if stderr.len() == 0 {
        "unknown error"@
    } else {
        let l = first_line(stderr);
        if l.len() <= 100 {
            l
        } else {
            l.subrange(0, 100)
        }
    }
}

/// Classification relation between a process outcome and a task status
/// (exact up to the identity of the carried strings).
pub open spec fn status_matches(o: ProcessOutcome, st: TaskStatus) -> bool {
    match o {
        ProcessOutcome::Completed { exit_success, stdout, stderr } => {
            if exit_success {
                if has_provider_error_marker(stdout@) {
                    st == TaskStatus::ProviderError
                } else {
                    st == TaskStatus::Succeeded
                }
            } else {
                st matches TaskStatus::ProcessFailure(m) && m@ == failure_message(stderr@)
            }
        },
        ProcessOutcome::SpawnFailure(e) => st matches TaskStatus::ProcessFailure(m) && m@ == e@,
        ProcessOutcome::TimedOut => st == TaskStatus::TimedOut,
    }
}

/// Extracts the first line of `s` as `str::lines` would return it.
fn first_line_exec(s: &str) -> (r: String)
    ensures
        r@ == first_line(s@),
{
    let n = s.unicode_len();
    let stop: usize = match index_of_char(s, '\n') {
        Some(i) => {
            proof {
                lemma_first_index_at(s@, '\n', i as int);
            }
            i
        },
        None => {
            proof {
                lemma_first_index_absent(s@, '\n');
            }
            n
        },
    };
    let line = s.substring_char(0, stop);
    let m = line.unicode_len();
    if m > 0 && line.get_char(m - 1) == '\r' {
        let cut = line.substring_char(0, m - 1);
        assert(cut@ =~= line@.drop_last());
        cut.to_owned()
    } else {
        line.to_owned()
    }
}

/// An invocation of the external converter, as plain values: the program
/// name and its argument list, in order.
#[derive(Debug, Clone, PartialEq, Eq)]
pub struct CommandSpec {
    pub program: String,
    pub args: Vec<String>,
}

/// Download progress event payload, pushed once per finished task.
#[derive(Debug, Clone, PartialEq, Eq)]
pub struct DownloadProgress {
    /// Track identifier extracted from the URL.
    pub song: String,
    /// One-based position of the task across the whole job.
    pub index: usize,
    /// Total number of tracks in the job.
    pub total: usize,
    /// Terminal status of the task.
    pub status: TaskStatus,
    /// The URL being downloaded.
    pub url: String,
}

/// Segment completion event.
#[derive(Debug, Clone, PartialEq, Eq)]
pub struct DownloadSegmentFinished {
    /// One-based number of the segment that completed.
    pub segment: usize,
    /// Completion message.
    pub message: String,
}

/// Job completion event.
#[derive(Debug, Clone, PartialEq, Eq)]
pub struct DownloadFinished {
    /// Final status message.
    pub message: String,
    /// Number of successfully downloaded tracks.
    pub total_downloaded: usize,
    /// Number of failed tracks.
    pub total_failed: usize,
}

/// Pre-flight error event.
#[derive(Debug, Clone, PartialEq, Eq)]
pub struct DownloadErrorEvent {
    /// Message describing what went wrong.
    pub message: String,
}

/// Everything the orchestrator pushes to the progress sink, in order.
#[derive(Debug, Clone, PartialEq, Eq)]
pub enum JobEvent {
    Progress(DownloadProgress),
    SegmentFinished(DownloadSegmentFinished),
    Finished(DownloadFinished),
}

/// Service for running downloads through the external converter.
pub struct DownloadService;

impl DownloadService {
    /// Classifies the version-probe outcome: a successful exit yields the
    /// trimmed version text; anything else rejects the converter as missing,
    /// and an elapsed wait yields a timeout error.
    pub fn check_installed(outcome: &ProcessOutcome) -> (r: Result<String, AppError>)
        ensures
            match r {
                Ok(v) => (outcome matches ProcessOutcome::Completed {
                    exit_success: true,
                    stdout,
                    ..
                } && v@ == trim_spec(stdout@)),
                Err(e) => match *outcome {
                    ProcessOutcome::Completed { exit_success, .. } => !exit_success && e
                        == AppError::Download(DownloadError::SpotdlNotInstalled),
                    ProcessOutcome::SpawnFailure(_) => e == AppError::Download(
                        DownloadError::SpotdlNotInstalled,
                    ),
                    ProcessOutcome::TimedOut => e == AppError::Download(
                        DownloadError::Timeout(CHECK_TIMEOUT_SECS),
                    ),
                },
            },
    {
        match outcome {
            ProcessOutcome::Completed { exit_success, stdout, .. } => {
                if *exit_success {
                    Ok(trim_spaces(stdout.as_str()))
                } else {
                    Err(AppError::Download(DownloadError::SpotdlNotInstalled))
                }
            },
            ProcessOutcome::SpawnFailure(_) => Err(
                AppError::Download(DownloadError::SpotdlNotInstalled),
            ),
            ProcessOutcome::TimedOut => Err(
                AppError::Download(DownloadError::Timeout(CHECK_TIMEOUT_SECS)),
            ),
        }
    }

    /// Classifies a finished download process into its terminal status.
    pub fn process_download_output(outcome: &ProcessOutcome) -> (st: TaskStatus)
        ensures
            status_matches(*outcome, st),
    {
        match outcome {
            ProcessOutcome::Completed { exit_success, stdout, stderr } => {
                if *exit_success {
                    if contains_substring(stdout.as_str(), "AudioProviderError")
                        || contains_substring(stdout.as_str(), "YT-DLP download error") {
                        TaskStatus::ProviderError
                    } else {
                        TaskStatus::Succeeded
                    }
                } else {
                    let n = stderr.as_str().unicode_len();
                    if n == 0 {
                        TaskStatus::ProcessFailure(String::from_str("unknown error"))
                    } else {
                        let line = first_line_exec(stderr.as_str());
                        let msg = take_chars(line.as_str(), MAX_FAILURE_MESSAGE_CHARS);
                        TaskStatus::ProcessFailure(msg)
                    }
                }
            },
            ProcessOutcome::SpawnFailure(e) => TaskStatus::ProcessFailure(e.clone()),
            ProcessOutcome::TimedOut => TaskStatus::TimedOut,
        }
    }

    /// Turns the terminal status of a single-track download into the caller's
    /// result — a success string, or the classified error — together with
    /// the one progress event (index 1 of 1) that is always attempted for a
    /// single download, whatever the classification was.
    pub fn handle_download_result(song_name: &str, url: &str, st: TaskStatus) -> (r: (
        DownloadProgress,
        Result<String, AppError>,
    ))
        ensures
            r.0.song@ == song_name@ && r.0.index == 1 && r.0.total == 1 && r.0.url@ == url@
                && r.0.status == st,
            match st {
                TaskStatus::Succeeded => (r.1 matches Ok(m) && m@ == song_name@
                    + " downloaded successfully"@),
                TaskStatus::ProviderError => r.1 == Err::<String, AppError>(
                    AppError::Download(DownloadError::YouTubeError),
                ),
                TaskStatus::ProcessFailure(msg) => (r.1 matches Err(
                    AppError::Download(DownloadError::Failed(m)),
                ) && m@ == msg@),
                TaskStatus::TimedOut => r.1 == Err::<String, AppError>(
                    AppError::Download(DownloadError::Timeout(SPOTDL_TIMEOUT_SECS)),
                ),
            },
    {
        let result: Result<String, AppError> = match &st {
            TaskStatus::Succeeded => Ok(
                String::from_str(song_name).concat(" downloaded successfully"),
            ),
            TaskStatus::ProviderError => Err(AppError::Download(DownloadError::YouTubeError)),
            TaskStatus::ProcessFailure(msg) => Err(
                AppError::Download(DownloadError::Failed(msg.clone())),
            ),
            TaskStatus::TimedOut => Err(
                AppError::Download(DownloadError::Timeout(SPOTDL_TIMEOUT_SECS)),
            ),
        };
        let event = DownloadProgress {
            song: song_name.to_owned(),
            index: 1,
            total: 1,
            status: st,
            url: url.to_owned(),
        };
        (event, result)
    }

    /// Builds the output path handed to the converter: directory and template
    /// joined when both are present, either alone otherwise, and nothing when
    /// neither is given.
    pub fn build_output_path(output_template: &str, output_dir: Option<&str>) -> (r: Option<
        String,
    >)
        ensures
            match output_dir {
                Some(dir) => {
                    if output_template@.len() == 0 {
                        r matches Some(p) && p@ == dir@
                    } else {
                        r matches Some(p) && p@ == dir@ + "/"@ + output_template@
                    }
                },
                None => {
                    if output_template@.len() == 0 {
                        r is None
                    } else {
                        r matches Some(p) && p@ == output_template@
                    }
                },
            },
    {
        match output_dir {
            Some(dir) => {
                if output_template.unicode_len() == 0 {
                    Some(dir.to_owned())
                } else {
                    Some(String::from_str(dir).concat("/").concat(output_template))
                }
            },
            None => {
                if output_template.unicode_len() == 0 {
                    None
                } else {
                    Some(output_template.to_owned())
                }
            },
        }
    }

    /// Builds the converter invocation for one track: the download
    /// subcommand, the optional output path, the output format, the audio
    /// source hints, and the error-verbosity flag, in that order.
    pub fn build_spotdl_command(url: &str, format: &str, output_path: Option<&str>) -> (r:
        CommandSpec)
        ensures
            r.program@ == "spotdl"@,
            match output_path {
                Some(p) => r.args@.len() == 10 && r.args@[0]@ == "download"@ && r.args@[1]@ == url@
                    && r.args@[2]@ == "--output"@ && r.args@[3]@ == p@ && r.args@[4]@
                    == "--format"@ && r.args@[5]@ == format@ && r.args@[6]@ == "--audio"@
                    && r.args@[7]@ == "youtube-music"@ && r.args@[8]@ == "youtube"@ && r.args@[9]@
                    == "--print-errors"@,
                None => r.args@.len() == 8 && r.args@[0]@ == "download"@ && r.args@[1]@ == url@
                    && r.args@[2]@ == "--format"@ && r.args@[3]@ == format@ && r.args@[4]@
                    == "--audio"@ && r.args@[5]@ == "youtube-music"@ && r.args@[6]@ == "youtube"@
                    && r.args@[7]@ == "--print-errors"@,
            },
    {
        let mut args: Vec<String> = Vec::new();
        args.push(String::from_str("download"));
        args.push(url.to_owned());
        match output_path {
            Some(p) => {
                args.push(String::from_str("--output"));
                args.push(p.to_owned());
            },
            None => {},
        }
        args.push(String::from_str("--format"));
        args.push(format.to_owned());
        args.push(String::from_str("--audio"));
        args.push(String::from_str("youtube-music"));
        args.push(String::from_str("youtube"));
        args.push(String::from_str("--print-errors"));
        CommandSpec { program: String::from_str("spotdl"), args }
    }
}

impl DownloadService {
    /// Folds one task result into a segment's counters: a successful
    /// download bumps `downloaded`; anything else, a crashed task included,
    /// bumps `failed`.
    pub fn count_download_result(result: &TaskResult, downloaded: &mut usize, failed: &mut usize)
        requires
            *old(downloaded) < usize::MAX,
            *old(failed) < usize::MAX,
        ensures
            is_success(*result) ==> *final(downloaded) == *old(downloaded) + 1 && *final(failed)
                == *old(failed),
            !is_success(*result) ==> *final(failed) == *old(failed) + 1 && *final(downloaded)
                == *old(downloaded),
    {
        match result {
            TaskResult::Finished(TaskStatus::Succeeded) => {
                *downloaded = *downloaded + 1;
            },
            _ => {
                *failed = *failed + 1;
            },
        }
    }
}

/// Extracts the display name used for a track in progress events.
pub fn extract_song_name(url: &str) -> (r: String)
    ensures
        r@ == song_id_of(url@),
{
    extract_song_id(url)
}

} // verus!

verus! {

/// The output path handed to the converter, from the template and directory.
pub open spec fn output_path_spec(template: Seq<char>, dir: Option<Seq<char>>) -> Option<
    Seq<char>,
> {
    match dir {
        Option::Some(d) => {
            if template.len() == 0 {
                Option::Some(d)
            } else {
                Option::Some(d + "/"@ + template)
            }
        },
        Option::None => {
            if template.len() == 0 {
                Option::None
            } else {
                Option::Some(template)
            }
        },
    }
}

/// `args` is the exact converter argument list for one track.
pub open spec fn spotdl_args_match(
    args: Seq<String>,
    url: Seq<char>,
    format: Seq<char>,
    out: Option<Seq<char>>,
) -> bool {
    match out {
        Option::Some(p) => args.len() == 10 && args[0]@ == "download"@ && args[1]@ == url
            && args[2]@ == "--output"@ && args[3]@ == p && args[4]@ == "--format"@ && args[5]@
            == format && args[6]@ == "--audio"@ && args[7]@ == "youtube-music"@ && args[8]@
            == "youtube"@ && args[9]@ == "--print-errors"@,
        Option::None => args.len() == 8 && args[0]@ == "download"@ && args[1]@ == url && args[2]@
            == "--format"@ && args[3]@ == format && args[4]@ == "--audio"@ && args[5]@
            == "youtube-music"@ && args[6]@ == "youtube"@ && args[7]@ == "--print-errors"@,
    }
}

/// The directory view of an optional output directory.
pub open spec fn dir_view(output_dir: Option<&str>) -> Option<Seq<char>> {
    match output_dir {
        Option::Some(d) => Option::Some(d@),
        Option::None => Option::None,
    }
}

impl DownloadService {
    /// Pre-flight for a single-track download: validates the URL shape, the
    /// format and the output directory, and builds the exact converter
    /// invocation. Nothing is spawned when any rule fails.
    /// `dir_parent_exists` reports whether the directory's parent exists on
    /// disk (true when it has no parent).
    pub fn prepare_single_download(
        url: &str,
        output_template: &str,
        format: &str,
        output_dir: Option<&str>,
        dir_parent_exists: bool,
    ) -> (r: Result<CommandSpec, AppError>)
        ensures
            r is Ok <==> crate::text::starts_with(url@, crate::validation::spotify_track_prefix())
                && crate::validation::valid_format(format@) && (match output_dir {
                Option::Some(d) => !has_substring(d@, ".."@) && dir_parent_exists,
                Option::None => true,
            }),
            r matches Ok(cmd) ==> cmd.program@ == "spotdl"@ && spotdl_args_match(
                cmd.args@,
                url@,
                format@,
                output_path_spec(output_template@, dir_view(output_dir)),
            ),
            r matches Err(e) ==> (if !crate::text::starts_with(
                url@,
                crate::validation::spotify_track_prefix(),
            ) {
                e matches AppError::Download(DownloadError::InvalidUrl(u)) && u@ == url@
            } else if !crate::validation::valid_format(format@) {
                e matches AppError::Download(DownloadError::InvalidFormat(m)) && m@
                    == "Use one of: mp3, flac, ogg, m4a, opus"@
            } else {
                match output_dir {
                    Option::Some(d) => {
                        if has_substring(d@, ".."@) {
                            e matches AppError::File(crate::errors::FileError::PathTraversal(p))
                                && p@ == d@
                        } else {
                            e matches AppError::Download(DownloadError::OutputDirNotFound(p)) && p@
                                == d@
                        }
                    },
                    Option::None => false,
                }
            }),
    {
        match crate::validation::validate_spotify_url(url) {
            Err(e) => {
                return Err(e);
            },
            Ok(_) => {},
        }
        match crate::validation::validate_download_format(format) {
            Err(e) => {
                return Err(e);
            },
            Ok(_) => {},
        }
        match output_dir {
            Some(d) => {
                match crate::paths::validate_output_path(d, dir_parent_exists) {
                    Err(e) => {
                        return Err(e);
                    },
                    Ok(_) => {},
                }
            },
            None => {},
        }
        let path = Self::build_output_path(output_template, output_dir);
        let cmd = match &path {
            Some(p) => Self::build_spotdl_command(url, format, Some(p.as_str())),
            None => Self::build_spotdl_command(url, format, None),
        };
        Ok(cmd)
    }
}

/// The caller-visible result of a single-track download for each process
/// outcome: a success string for a clean exit, the provider error when the
/// output carries a marker, the classified failure otherwise, and a timeout
/// error when the wait elapsed.
pub open spec fn single_result_matches(
    song: Seq<char>,
    o: ProcessOutcome,
    r: Result<String, AppError>,
) -> bool {
    match o {
        ProcessOutcome::Completed { exit_success, stdout, stderr } => {
            if exit_success {
                if has_provider_error_marker(stdout@) {
                    r == Err::<String, AppError>(AppError::Download(DownloadError::YouTubeError))
                } else {
                    (r matches Ok(m) && m@ == song + " downloaded successfully"@)
                }
            } else {
                (r matches Err(AppError::Download(DownloadError::Failed(m))) && m@
                    == failure_message(stderr@))
            }
        },
        ProcessOutcome::SpawnFailure(e) => (r matches Err(
            AppError::Download(DownloadError::Failed(m)),
        ) && m@ == e@),
        ProcessOutcome::TimedOut => r == Err::<String, AppError>(
            AppError::Download(DownloadError::Timeout(SPOTDL_TIMEOUT_SECS)),
        ),
    }
}

impl DownloadService {
    /// Classifies a finished single-track process and hands the caller the
    /// progress event to push (always, whatever the classification) and a
    /// success string or the classified error.
    pub fn finish_single_download(url: &str, outcome: &ProcessOutcome) -> (r: (
        DownloadProgress,
        Result<String, AppError>,
    ))
        ensures
            r.0.song@ == song_id_of(url@) && r.0.index == 1 && r.0.total == 1 && r.0.url@ == url@,
            status_matches(*outcome, r.0.status),
            single_result_matches(song_id_of(url@), *outcome, r.1),
    {
        let st = Self::process_download_output(outcome);
        let song = extract_song_id(url);
        Self::handle_download_result(song.as_str(), url, st)
    }
}

} // verus!
