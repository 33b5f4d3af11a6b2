//! Tests of process-outcome classification, the tool probe, and command
//! construction.

use musicplayer::download::{
    CommandSpec, DownloadService, ProcessOutcome, TaskStatus,
};
use musicplayer::errors::{AppError, DownloadError};

fn completed(exit_success: bool, stdout: &str, stderr: &str) -> ProcessOutcome {
    ProcessOutcome::Completed {
        exit_success,
        stdout: stdout.to_string(),
        stderr: stderr.to_string(),
    }
}

#[test]
fn clean_exit_classifies_as_succeeded() {
    let st = DownloadService::process_download_output(&completed(true, "Downloaded 1 song\n", ""));
    assert_eq!(st, TaskStatus::Succeeded);
}

#[test]
fn timeout_classifies_as_timed_out() {
    let st = DownloadService::process_download_output(&ProcessOutcome::TimedOut);
    assert_eq!(st, TaskStatus::TimedOut);
}

#[test]
fn provider_marker_classifies_as_provider_error() {
    let st = DownloadService::process_download_output(&completed(
        true,
        "Processing...\nAudioProviderError: denied\n",
        "",
    ));
    assert_eq!(st, TaskStatus::ProviderError);
    let st = DownloadService::process_download_output(&completed(
        true,
        "YT-DLP download error for track\n",
        "",
    ));
    assert_eq!(st, TaskStatus::ProviderError);
}

#[test]
fn nonzero_exit_keeps_first_stderr_line() {
    let st = DownloadService::process_download_output(&completed(
        false,
        "",
        "network unreachable\nmore detail\n",
    ));
    assert_eq!(
        st,
        TaskStatus::ProcessFailure("network unreachable".to_string())
    );
}

#[test]
fn nonzero_exit_strips_carriage_return_and_truncates() {
    let st = DownloadService::process_download_output(&completed(false, "", "short line\r\nrest"));
    assert_eq!(st, TaskStatus::ProcessFailure("short line".to_string()));
    let long = "x".repeat(250);
    let st = DownloadService::process_download_output(&completed(false, "", &long));
    match st {
        TaskStatus::ProcessFailure(m) => assert_eq!(m, "x".repeat(100)),
        other => panic!("unexpected status: {:?}", other),
    }
}

#[test]
fn nonzero_exit_with_empty_stderr_gets_a_fixed_message() {
    let st = DownloadService::process_download_output(&completed(false, "", ""));
    assert_eq!(st, TaskStatus::ProcessFailure("unknown error".to_string()));
}

#[test]
fn spawn_failure_carries_the_os_text() {
    let st = DownloadService::process_download_output(&ProcessOutcome::SpawnFailure(
        "No such file or directory".to_string(),
    ));
    assert_eq!(
        st,
        TaskStatus::ProcessFailure("No such file or directory".to_string())
    );
}

#[test]
fn probe_success_yields_trimmed_version() {
    let r = DownloadService::check_installed(&completed(true, "  4.2.5\n", ""));
    assert_eq!(r.unwrap(), "4.2.5");
}

#[test]
fn probe_failure_yields_not_installed() {
    let r = DownloadService::check_installed(&completed(false, "", ""));
    assert_eq!(
        r.unwrap_err(),
        AppError::Download(DownloadError::SpotdlNotInstalled)
    );
    let r = DownloadService::check_installed(&ProcessOutcome::SpawnFailure("gone".to_string()));
    assert_eq!(
        r.unwrap_err(),
        AppError::Download(DownloadError::SpotdlNotInstalled)
    );
}

#[test]
fn probe_timeout_yields_timeout_error() {
    let r = DownloadService::check_installed(&ProcessOutcome::TimedOut);
    assert_eq!(r.unwrap_err(), AppError::Download(DownloadError::Timeout(5)));
}

#[test]
fn single_download_result_maps_statuses() {
    let url = "https://open.spotify.com/track/abc";
    let (event, ok) = DownloadService::handle_download_result("abc", url, TaskStatus::Succeeded);
    assert_eq!(ok.unwrap(), "abc downloaded successfully");
    assert_eq!(event.index, 1);
    assert_eq!(event.total, 1);
    assert_eq!(event.status, TaskStatus::Succeeded);
    let (event, err) =
        DownloadService::handle_download_result("abc", url, TaskStatus::ProviderError);
    assert_eq!(
        err.unwrap_err(),
        AppError::Download(DownloadError::YouTubeError)
    );
    assert_eq!(event.status, TaskStatus::ProviderError);
    let (event, err) = DownloadService::handle_download_result(
        "abc",
        url,
        TaskStatus::ProcessFailure("boom".to_string()),
    );
    assert_eq!(
        err.unwrap_err(),
        AppError::Download(DownloadError::Failed("boom".to_string()))
    );
    assert_eq!(event.status, TaskStatus::ProcessFailure("boom".to_string()));
    let (event, err) = DownloadService::handle_download_result("abc", url, TaskStatus::TimedOut);
    assert_eq!(
        err.unwrap_err(),
        AppError::Download(DownloadError::Timeout(300))
    );
    assert_eq!(event.status, TaskStatus::TimedOut);
}

#[test]
fn finish_single_download_round_trips() {
    let url = "https://open.spotify.com/track/abc?si=1";
    let (event, r) = DownloadService::finish_single_download(&url, &completed(true, "done", ""));
    assert_eq!(r.unwrap(), "abc downloaded successfully");
    assert_eq!(event.song, "abc");
    assert_eq!((event.index, event.total), (1, 1));
    assert_eq!(event.url, url);
    assert_eq!(event.status, TaskStatus::Succeeded);
    // The event is attempted for a failing classification too.
    let (event, r) = DownloadService::finish_single_download(&url, &ProcessOutcome::TimedOut);
    assert_eq!(
        r.unwrap_err(),
        AppError::Download(DownloadError::Timeout(300))
    );
    assert_eq!(event.status, TaskStatus::TimedOut);
    assert_eq!((event.index, event.total), (1, 1));
}

#[test]
fn output_path_combines_directory_and_template() {
    assert_eq!(
        DownloadService::build_output_path("{artist} - {title}", Some("music")),
        Some("music/{artist} - {title}".to_string())
    );
    assert_eq!(
        DownloadService::build_output_path("", Some("music")),
        Some("music".to_string())
    );
    assert_eq!(
        DownloadService::build_output_path("{title}", None),
        Some("{title}".to_string())
    );
    assert_eq!(DownloadService::build_output_path("", None), None);
}

#[test]
fn command_holds_expected_arguments() {
    let cmd: CommandSpec = DownloadService::build_spotdl_command(
        "https://open.spotify.com/track/abc",
        "mp3",
        Some("music/{title}"),
    );
    assert_eq!(cmd.program, "spotdl");
    assert_eq!(
        cmd.args,
        vec![
            "download",
            "https://open.spotify.com/track/abc",
            "--output",
            "music/{title}",
            "--format",
            "mp3",
            "--audio",
            "youtube-music",
            "youtube",
            "--print-errors"
        ]
        .into_iter()
        .map(str::to_string)
        .collect::<Vec<String>>()
    );
    let cmd = DownloadService::build_spotdl_command("u", "opus", None);
    assert_eq!(cmd.args.len(), 8);
    assert_eq!(cmd.args[2], "--format");
}

#[test]
fn prepare_single_download_validates_then_builds() {
    let cmd = DownloadService::prepare_single_download(
        "https://open.spotify.com/track/abc",
        "{title}",
        "mp3",
        Some("music"),
        true,
    )
    .unwrap();
    assert_eq!(cmd.args[3], "music/{title}");
    let err = DownloadService::prepare_single_download(
        "ftp://bad",
        "",
        "mp3",
        None,
        true,
    )
    .unwrap_err();
    assert_eq!(
        err,
        AppError::Download(DownloadError::InvalidUrl("ftp://bad".to_string()))
    );
    let err = DownloadService::prepare_single_download(
        "https://open.spotify.com/track/abc",
        "",
        "wav",
        None,
        true,
    )
    .unwrap_err();
    assert!(matches!(
        err,
        AppError::Download(DownloadError::InvalidFormat(_))
    ));
}
