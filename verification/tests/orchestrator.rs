//! End-to-end tests of the batch job orchestrator over pre-supplied task
//! results.

use musicplayer::download::{
    DownloadService, JobEvent, ProcessOutcome, TaskResult, TaskStatus,
};
use musicplayer::errors::{AppError, DownloadError};
use musicplayer::job::{
    plan_segments, run_job, validate_job, SegmentAction, SegmentWindow,
};

fn url(i: usize) -> String {
    format!("https://open.spotify.com/track/track{}", i)
}

fn urls(n: usize) -> Vec<String> {
    (0..n).map(url).collect()
}

fn ok_probe() -> ProcessOutcome {
    ProcessOutcome::Completed {
        exit_success: true,
        stdout: "4.2.5\n".to_string(),
        stderr: String::new(),
    }
}

fn all_ok(n: usize) -> Vec<TaskResult> {
    (0..n).map(|_| TaskResult::Finished(TaskStatus::Succeeded)).collect()
}

fn run(
    list: Vec<String>,
    segment_size: usize,
    delay: u64,
    format: &str,
    probe: ProcessOutcome,
    results: Vec<TaskResult>,
) -> Result<musicplayer::job::JobReport, AppError> {
    DownloadService::download_tracks_segmented(
        list,
        segment_size,
        delay,
        String::new(),
        format.to_string(),
        None,
        true,
        &probe,
        &results,
    )
}

#[test]
fn seven_tracks_three_segments() {
    let report = run(urls(7), 3, 5, "mp3", ok_probe(), all_ok(7)).unwrap();
    assert_eq!(report.outcome.total_downloaded, 7);
    assert_eq!(report.outcome.total_failed, 0);
    assert_eq!(report.delays, 2);
    let seg_events: Vec<_> = report
        .events
        .iter()
        .filter_map(|e| match e {
            JobEvent::SegmentFinished(s) => Some(s.segment),
            _ => None,
        })
        .collect();
    assert_eq!(seg_events, vec![1, 2, 3]);
    let progress = report
        .events
        .iter()
        .filter(|e| matches!(e, JobEvent::Progress(_)))
        .count();
    assert_eq!(progress, 7);
    let finished = report
        .events
        .iter()
        .filter(|e| matches!(e, JobEvent::Finished(_)))
        .count();
    assert_eq!(finished, 1);
    match report.events.last().unwrap() {
        JobEvent::Finished(f) => {
            assert_eq!(f.total_downloaded, 7);
            assert_eq!(f.total_failed, 0);
        }
        other => panic!("last event is not the job event: {:?}", other),
    }
}

#[test]
fn segment_sizes_follow_the_plan() {
    assert_eq!(plan_segments(7, 3), vec![3, 3, 1]);
    assert_eq!(plan_segments(6, 3), vec![3, 3]);
    assert_eq!(plan_segments(1, 50), vec![1]);
    assert_eq!(plan_segments(50, 50), vec![50]);
    assert_eq!(plan_segments(0, 3), Vec::<usize>::new());
}

#[test]
fn totals_account_for_every_task() {
    let results = vec![
        TaskResult::Finished(TaskStatus::Succeeded),
        TaskResult::Finished(TaskStatus::TimedOut),
        TaskResult::Finished(TaskStatus::ProcessFailure("boom".to_string())),
        TaskResult::Crashed,
        TaskResult::Finished(TaskStatus::Succeeded),
    ];
    let report = run(urls(5), 2, 2, "flac", ok_probe(), results).unwrap();
    assert_eq!(report.outcome.total_downloaded, 2);
    assert_eq!(report.outcome.total_failed, 3);
    assert_eq!(
        report.outcome.total_downloaded + report.outcome.total_failed,
        5
    );
}

#[test]
fn all_failures_still_complete_the_job() {
    let results: Vec<TaskResult> = (0..4)
        .map(|_| TaskResult::Finished(TaskStatus::TimedOut))
        .collect();
    let report = run(urls(4), 2, 2, "mp3", ok_probe(), results).unwrap();
    assert_eq!(report.outcome.total_downloaded, 0);
    assert_eq!(report.outcome.total_failed, 4);
    assert_eq!(report.delays, 1);
}

#[test]
fn empty_list_is_rejected() {
    let err = run(vec![], 3, 5, "mp3", ok_probe(), vec![]).unwrap_err();
    assert_eq!(
        err,
        AppError::Download(DownloadError::Failed("Empty URL list".to_string()))
    );
    assert_eq!(err.to_user_message(), "Download failed: Empty URL list");
}

#[test]
fn oversized_batch_is_rejected() {
    let err = run(urls(101), 3, 5, "mp3", ok_probe(), all_ok(101)).unwrap_err();
    assert_eq!(err, AppError::Download(DownloadError::TooManySongs(100)));
    assert_eq!(
        err.to_user_message(),
        "Too many songs requested: max 100"
    );
}

#[test]
fn invalid_url_is_rejected_with_the_first_offender() {
    let mut list = urls(3);
    list[1] = "https://example.com/track/x".to_string();
    let err = run(list, 3, 5, "mp3", ok_probe(), all_ok(3)).unwrap_err();
    assert_eq!(
        err,
        AppError::Download(DownloadError::InvalidUrl(
            "https://example.com/track/x".to_string()
        ))
    );
}

#[test]
fn probe_timeout_aborts_before_any_task() {
    let err = run(urls(3), 3, 5, "mp3", ProcessOutcome::TimedOut, all_ok(3)).unwrap_err();
    assert_eq!(err, AppError::Download(DownloadError::Timeout(5)));
}

#[test]
fn probe_failure_reports_missing_tool() {
    let probe = ProcessOutcome::Completed {
        exit_success: false,
        stdout: String::new(),
        stderr: "not found".to_string(),
    };
    let err = run(urls(2), 3, 5, "mp3", probe, all_ok(2)).unwrap_err();
    assert_eq!(err, AppError::Download(DownloadError::SpotdlNotInstalled));
}

#[test]
fn provider_error_is_tallied_failed_with_its_own_status() {
    let results = vec![
        TaskResult::Finished(TaskStatus::Succeeded),
        TaskResult::Finished(TaskStatus::ProviderError),
    ];
    let report = run(urls(2), 3, 2, "mp3", ok_probe(), results).unwrap();
    assert_eq!(report.outcome.total_downloaded, 1);
    assert_eq!(report.outcome.total_failed, 1);
    let statuses: Vec<&TaskStatus> = report
        .events
        .iter()
        .filter_map(|e| match e {
            JobEvent::Progress(p) => Some(&p.status),
            _ => None,
        })
        .collect();
    assert_eq!(statuses.len(), 2);
    assert_eq!(*statuses[0], TaskStatus::Succeeded);
    assert_eq!(*statuses[1], TaskStatus::ProviderError);
    assert!(*statuses[1] != TaskStatus::ProcessFailure("".to_string()));
}

#[test]
fn progress_events_carry_index_total_and_song() {
    let report = run(urls(2), 1, 2, "ogg", ok_probe(), all_ok(2)).unwrap();
    let progress: Vec<_> = report
        .events
        .iter()
        .filter_map(|e| match e {
            JobEvent::Progress(p) => Some(p),
            _ => None,
        })
        .collect();
    assert_eq!(progress[0].index, 1);
    assert_eq!(progress[1].index, 2);
    assert_eq!(progress[0].total, 2);
    assert_eq!(progress[0].song, "track0");
    assert_eq!(progress[1].url, url(1));
}

#[test]
fn knobs_are_clamped() {
    let job = validate_job(
        urls(2),
        0,
        99,
        String::new(),
        "mp3".to_string(),
        None,
        true,
    )
    .unwrap();
    assert_eq!(job.segment_size, 1);
    assert_eq!(job.delay_secs, 10);
    let job = validate_job(
        urls(2),
        200,
        0,
        String::new(),
        "mp3".to_string(),
        None,
        true,
    )
    .unwrap();
    assert_eq!(job.segment_size, 50);
    assert_eq!(job.delay_secs, 2);
}

#[test]
fn traversal_in_output_dir_is_rejected() {
    let err = DownloadService::download_tracks_segmented(
        urls(1),
        3,
        5,
        String::new(),
        "mp3".to_string(),
        Some("../music".to_string()),
        true,
        &ok_probe(),
        &all_ok(1),
    )
    .unwrap_err();
    assert!(matches!(
        err,
        AppError::File(musicplayer::errors::FileError::PathTraversal(_))
    ));
}

#[test]
fn missing_output_dir_parent_is_rejected() {
    let err = DownloadService::download_tracks_segmented(
        urls(1),
        3,
        5,
        String::new(),
        "mp3".to_string(),
        Some("music/new".to_string()),
        false,
        &ok_probe(),
        &all_ok(1),
    )
    .unwrap_err();
    assert_eq!(
        err,
        AppError::Download(DownloadError::OutputDirNotFound("music/new".to_string()))
    );
}

#[test]
fn window_enforces_the_cap() {
    let mut w = SegmentWindow::new(5);
    assert!(matches!(w.next_action(), SegmentAction::Spawn(0)));
    w.record_spawn();
    w.record_spawn();
    w.record_spawn();
    assert!(matches!(w.next_action(), SegmentAction::AwaitOne));
    w.record_completion(&TaskResult::Finished(TaskStatus::Succeeded));
    assert!(matches!(w.next_action(), SegmentAction::Spawn(3)));
    w.record_spawn();
    w.record_spawn();
    assert!(matches!(w.next_action(), SegmentAction::AwaitOne));
    w.record_completion(&TaskResult::Finished(TaskStatus::TimedOut));
    w.record_completion(&TaskResult::Crashed);
    w.record_completion(&TaskResult::Finished(TaskStatus::Succeeded));
    w.record_completion(&TaskResult::Finished(TaskStatus::Succeeded));
    assert!(matches!(w.next_action(), SegmentAction::SegmentDone));
    assert_eq!(w.downloaded, 3);
    assert_eq!(w.failed, 2);
}

#[test]
fn count_download_result_tallies_crashes_as_failures() {
    let mut downloaded: usize = 0;
    let mut failed: usize = 0;
    DownloadService::count_download_result(
        &TaskResult::Finished(TaskStatus::Succeeded),
        &mut downloaded,
        &mut failed,
    );
    DownloadService::count_download_result(&TaskResult::Crashed, &mut downloaded, &mut failed);
    DownloadService::count_download_result(
        &TaskResult::Finished(TaskStatus::ProviderError),
        &mut downloaded,
        &mut failed,
    );
    assert_eq!(downloaded, 1);
    assert_eq!(failed, 2);
}

#[test]
fn run_job_emits_one_segment_event_per_segment() {
    let job = validate_job(
        urls(5),
        2,
        3,
        String::new(),
        "opus".to_string(),
        None,
        true,
    )
    .unwrap();
    let results = all_ok(5);
    let report = run_job(&job, &results);
    let seg_messages: Vec<String> = report
        .events
        .iter()
        .filter_map(|e| match e {
            JobEvent::SegmentFinished(s) => Some(s.message.clone()),
            _ => None,
        })
        .collect();
    assert_eq!(
        seg_messages,
        vec![
            "Segment 1 completed".to_string(),
            "Segment 2 completed".to_string(),
            "Segment 3 completed".to_string()
        ]
    );
    assert_eq!(report.delays, 2);
}

#[test]
fn trace_interleaves_segments_in_order() {
    // 7 tracks, segments of 3: tasks 1-3, segment 1, tasks 4-6, segment 2,
    // task 7, segment 3, then the job event.
    let report = run(urls(7), 3, 5, "mp3", ok_probe(), all_ok(7)).unwrap();
    let shape: Vec<String> = report
        .events
        .iter()
        .map(|e| match e {
            JobEvent::Progress(p) => format!("task{}", p.index),
            JobEvent::SegmentFinished(s) => format!("segment{}", s.segment),
            JobEvent::Finished(_) => "finished".to_string(),
        })
        .collect();
    assert_eq!(
        shape,
        vec![
            "task1", "task2", "task3", "segment1", "task4", "task5", "task6", "segment2",
            "task7", "segment3", "finished"
        ]
    );
}

#[test]
fn progress_events_tie_each_task_to_its_url() {
    let report = run(urls(5), 2, 2, "mp3", ok_probe(), all_ok(5)).unwrap();
    let progress: Vec<_> = report
        .events
        .iter()
        .filter_map(|e| match e {
            JobEvent::Progress(p) => Some(p),
            _ => None,
        })
        .collect();
    for (i, p) in progress.iter().enumerate() {
        assert_eq!(p.index, i + 1);
        assert_eq!(p.url, url(i));
        assert_eq!(p.song, format!("track{}", i));
    }
}
