//! The batch job orchestrator: request validation, segment planning, the
//! sliding-window concurrency limiter, and partial-failure accounting.
//!
//! The external work (spawning converter processes, timers, delays) is done
//! by the embedding application; this module holds every decision the
//! orchestrator makes and proves the accounting and bounded-concurrency
//! guarantees over those decisions.

use vstd::prelude::*;
use vstd::string::StringExecFns;

use crate::MAX_SONGS_PER_BATCH;
use crate::download::CHECK_TIMEOUT_SECS;
use crate::download::DownloadProgress;
use crate::download::DownloadService;
use crate::download::ProcessOutcome;
use crate::download::DownloadSegmentFinished;
use crate::download::DownloadFinished;
use crate::download::JobEvent;
use crate::download::TaskResult;
use crate::download::TaskStatus;
use crate::download::extract_song_name;
use crate::download::is_success;
use crate::errors::AppError;
use crate::errors::DownloadError;
use crate::errors::FileError;
use crate::text::dec_str;
use crate::text::fmt_u64;
use crate::text::has_substring;
use crate::text::starts_with;
use crate::text::contains_substring;
use crate::text::str_starts_with;
use crate::validation::song_id_of;
use crate::validation::spotify_track_prefix;
use crate::validation::valid_format;
use crate::validation::validate_download_format;

verus! {

/// Most tasks allowed in flight at once, across the whole job.
pub const MAX_CONCURRENT_DOWNLOADS: usize = 3;

/// Smallest accepted inter-segment pacing delay, in seconds.
pub const MIN_DELAY_SECS: u64 = 2;

/// Largest accepted inter-segment pacing delay, in seconds.
pub const MAX_DELAY_SECS: u64 = 10;

/// Largest accepted segment size.
pub const MAX_SEGMENT_SIZE: usize = 50;

/// Number of segments a job of `total` identifiers splits into.
pub open spec fn num_segments(total: int, segment_size: int) -> int {
    (total + segment_size - 1) / segment_size
}

/// Sum of a sequence of segment sizes.
pub open spec fn seq_sum(s: Seq<usize>) -> int
    decreases s.len(),
{
    if s.len() == 0 {
        0
    } else {
        seq_sum(s.drop_last()) + s.last()
    }
}

proof fn lemma_seq_sum_nonneg(s: Seq<usize>)
    ensures
        seq_sum(s) >= 0,
    decreases s.len(),
{
    if s.len() > 0 {
        lemma_seq_sum_nonneg(s.drop_last());
    }
}

proof fn lemma_seq_sum_add(a: Seq<usize>, b: Seq<usize>)
    ensures
        seq_sum(a + b) == seq_sum(a) + seq_sum(b),
    decreases b.len(),
{
    if b.len() == 0 {
        assert(a + b =~= a);
    } else {
        lemma_seq_sum_add(a, b.drop_last());
        assert((a + b).drop_last() =~= a + b.drop_last());
    }
}

/// Splits `total` tasks into segment sizes: every segment but the last is
/// full, the last carries the remainder, and the sizes sum back to `total`.
pub fn plan_segments(total: usize, segment_size: usize) -> (sizes: Vec<usize>)
    requires
        1 <= segment_size,
    ensures
        total > 0 ==> sizes@.len() == num_segments(total as int, segment_size as int),
        total == 0 ==> sizes@.len() == 0,
        seq_sum(sizes@) == total,
        forall|i: int| 0 <= i < sizes@.len() ==> 1 <= #[trigger] sizes@[i] <= segment_size,
        forall|i: int| 0 <= i < sizes@.len() - 1 ==> #[trigger] sizes@[i] == segment_size,
{
    let mut sizes: Vec<usize> = Vec::new();
    let mut remaining: usize = total;
    while remaining > 0
        invariant
            segment_size >= 1,
            remaining <= total,
            seq_sum(sizes@) == total - remaining,
            total == 0 ==> sizes@.len() == 0,
            forall|i: int| 0 <= i < sizes@.len() ==> 1 <= #[trigger] sizes@[i] <= segment_size,
            forall|i: int| 0 <= i < sizes@.len() - 1 ==> #[trigger] sizes@[i] == segment_size,
            remaining > 0 ==> forall|i: int| 0 <= i < sizes@.len() ==> #[trigger] sizes@[i]
                == segment_size,
        decreases remaining,
    {
        let chunk: usize = if remaining < segment_size {
            remaining
        } else {
            segment_size
        };
        proof {
            assert(sizes@.push(chunk).drop_last() =~= sizes@);
        }
        sizes.push(chunk);
        remaining -= chunk;
    }
    proof {
        if total > 0 {
            let n = sizes@.len() as int;
            let last = sizes@.last() as int;
            let seg = segment_size as int;
            assert(n >= 1);
            assert(seq_sum(sizes@.drop_last()) == total - last);
            lemma_full_prefix_sum(sizes@.drop_last(), segment_size);
            assert(total == (n - 1) * seg + last);
            assert((((n - 1) * seg + last) + seg - 1) / seg == n) by (nonlinear_arith)
                requires
                    1 <= last <= seg,
                    seg >= 1,
                    n >= 1,
            ;
        }
    }
    sizes
}

proof fn lemma_full_prefix_sum(s: Seq<usize>, segment_size: usize)
    requires
        forall|i: int| 0 <= i < s.len() ==> #[trigger] s[i] == segment_size,
    ensures
        seq_sum(s) == s.len() * segment_size,
    decreases s.len(),
{
    if s.len() > 0 {
        lemma_full_prefix_sum(s.drop_last(), segment_size);
        assert(seq_sum(s) == (s.len() - 1) * segment_size + segment_size);
        assert((s.len() - 1) * segment_size + segment_size == s.len() * segment_size)
            by (nonlinear_arith);
    }
}

/// The sliding-window admission state for one segment: how many tasks have
/// been started, how many have come back, and the success/failure tally.
#[derive(Debug, Clone, PartialEq, Eq)]
pub struct SegmentWindow {
    /// Number of tasks in this segment.
    pub seg_len: usize,
    /// Tasks spawned so far.
    pub spawned: usize,
    /// Tasks whose result has been tallied so far.
    pub completed: usize,
    /// Completed tasks that succeeded.
    pub downloaded: usize,
    /// Completed tasks that failed (any non-success result).
    pub failed: usize,
}

/// What the segment executor should do next.
#[derive(Debug, Clone, PartialEq, Eq)]
pub enum SegmentAction {
    /// Start the task with this zero-based index within the segment.
    Spawn(usize),
    /// The window is full (or everything is spawned): wait for any one
    /// in-flight task to finish.
    AwaitOne,
    /// Every task has been spawned and tallied; the segment is done.
    SegmentDone,
}

impl SegmentWindow {
    /// Well-formedness: tallies never outrun spawns, spawns never outrun the
    /// segment, the window never holds more than the concurrency cap, and
    /// every completed task is tallied exactly once.
    pub open spec fn wf(self) -> bool {
        self.completed <= self.spawned <= self.seg_len && self.spawned - self.completed
            <= MAX_CONCURRENT_DOWNLOADS && self.downloaded + self.failed == self.completed
    }

    /// Number of tasks currently in flight.
    pub open spec fn in_flight(self) -> int {
        self.spawned - self.completed
    }

    /// A fresh window for a segment of `seg_len` tasks.
    pub fn new(seg_len: usize) -> (w: SegmentWindow)
        ensures
            w.wf(),
            w.seg_len == seg_len,
            w.spawned == 0 && w.completed == 0 && w.downloaded == 0 && w.failed == 0,
    {
        SegmentWindow { seg_len, spawned: 0, completed: 0, downloaded: 0, failed: 0 }
    }

    /// The sliding-window rule: spawn while the segment has unspawned tasks
    /// and the window is below the cap; otherwise drain one; otherwise done.
    pub fn next_action(&self) -> (a: SegmentAction)
        requires
            self.wf(),
        ensures
            match a {
                SegmentAction::Spawn(i) => i == self.spawned && self.spawned < self.seg_len
                    && self.in_flight() < MAX_CONCURRENT_DOWNLOADS,
                SegmentAction::AwaitOne => self.in_flight() > 0 && (self.spawned == self.seg_len
                    || self.in_flight() == MAX_CONCURRENT_DOWNLOADS),
                SegmentAction::SegmentDone => self.spawned == self.seg_len && self.in_flight()
                    == 0,
            },
    {
        if self.spawned < self.seg_len && self.spawned - self.completed < MAX_CONCURRENT_DOWNLOADS {
            SegmentAction::Spawn(self.spawned)
        } else if self.spawned > self.completed {
            SegmentAction::AwaitOne
        } else {
            SegmentAction::SegmentDone
        }
    }

    /// Records that one more task was started.
    pub fn record_spawn(&mut self)
        requires
            old(self).wf(),
            old(self).spawned < old(self).seg_len,
            old(self).in_flight() < MAX_CONCURRENT_DOWNLOADS,
        ensures
            final(self).wf(),
            *final(self) == (SegmentWindow {
                spawned: (old(self).spawned + 1) as usize,
                ..*old(self)
            }),
    {
        self.spawned = self.spawned + 1;
    }

    /// Tallies the result of one in-flight task.
    pub fn record_completion(&mut self, result: &TaskResult)
        requires
            old(self).wf(),
            old(self).in_flight() > 0,
        ensures
            final(self).wf(),
            final(self).seg_len == old(self).seg_len && final(self).spawned == old(self).spawned,
            final(self).completed == old(self).completed + 1,
            is_success(*result) ==> final(self).downloaded == old(self).downloaded + 1
                && final(self).failed == old(self).failed,
            !is_success(*result) ==> final(self).failed == old(self).failed + 1
                && final(self).downloaded == old(self).downloaded,
    {
        match result {
            TaskResult::Finished(TaskStatus::Succeeded) => {
                self.downloaded = self.downloaded + 1;
            },
            _ => {
                self.failed = self.failed + 1;
            },
        }
        self.completed = self.completed + 1;
    }
}

/// Law: in a well-formed window the number of tasks in flight never exceeds
/// the concurrency cap, at any observation point.
pub proof fn lemma_in_flight_bounded(w: SegmentWindow)
    requires
        w.wf(),
    ensures
        0 <= w.in_flight() <= MAX_CONCURRENT_DOWNLOADS,
{
}

/// Law: once a segment has fully drained, every one of its tasks is tallied
/// exactly once — successes and failures add up to the segment length, even
/// when every task failed.
pub proof fn lemma_segment_accounting(w: SegmentWindow)
    requires
        w.wf(),
        w.spawned == w.seg_len,
        w.in_flight() == 0,
    ensures
        w.downloaded + w.failed == w.seg_len,
{
}

} // verus!

verus! {

/// A validated batch download job. Construction goes through `validate_job`,
/// which establishes `wf`.
#[derive(Debug, Clone, PartialEq, Eq)]
pub struct DownloadJob {
    /// Remote track references, in download order.
    pub urls: Vec<String>,
    /// Segment size, clamped to `[1, MAX_SEGMENT_SIZE]`.
    pub segment_size: usize,
    /// Inter-segment pacing delay in seconds, clamped to
    /// `[MIN_DELAY_SECS, MAX_DELAY_SECS]`.
    pub delay_secs: u64,
    /// Output file-name template handed to the converter.
    pub output_template: String,
    /// Requested audio format, one of the allowed set.
    pub format: String,
    /// Output directory, free of parent-traversal sequences.
    pub output_dir: Option<String>,
}

/// Every reference has the remote-catalog track URL shape.
pub open spec fn all_urls_valid(urls: Seq<String>) -> bool {
    forall|i: int| 0 <= i < urls.len() ==> starts_with(#[trigger] urls[i]@, spotify_track_prefix())
}

/// The supplied output directory (if any) is traversal-free and its parent
/// exists on disk, as the embedding application reports it.
pub open spec fn dir_ok(output_dir: Option<String>, dir_parent_exists: bool) -> bool {
    match output_dir {
        Some(d) => !has_substring(d@, ".."@) && dir_parent_exists,
        None => true,
    }
}

/// Index of the first reference without the required URL shape (meaningful
/// only when one exists).
pub open spec fn first_invalid_url(urls: Seq<String>) -> int
    decreases urls.len(),
{
    if urls.len() == 0 {
        0
    } else if !starts_with(urls[0]@, spotify_track_prefix()) {
        0
    } else {
        1 + first_invalid_url(urls.drop_first())
    }
}

proof fn lemma_first_invalid_at(urls: Seq<String>, k: int)
    requires
        0 <= k < urls.len(),
        !starts_with(urls[k]@, spotify_track_prefix()),
        forall|j: int| 0 <= j < k ==> starts_with(#[trigger] urls[j]@, spotify_track_prefix()),
    ensures
        first_invalid_url(urls) == k,
    decreases k,
{
    if k > 0 {
        let rest = urls.drop_first();
        assert(forall|j: int| 0 <= j < k - 1 ==> starts_with(
            #[trigger] rest[j]@,
            spotify_track_prefix(),
        ));
        lemma_first_invalid_at(rest, k - 1);
    }
}

/// All validation rules pass for this request.
pub open spec fn job_accepted(
    urls: Seq<String>,
    format: Seq<char>,
    output_dir: Option<String>,
    dir_parent_exists: bool,
) -> bool {
    &&& 1 <= urls.len() <= MAX_SONGS_PER_BATCH
    &&& valid_format(format)
    &&& all_urls_valid(urls)
    &&& dir_ok(output_dir, dir_parent_exists)
}

/// Validation rejects this request with exactly the error `e`, applying the
/// rules in order and stopping at the first violated one.
pub open spec fn job_rejected_with(
    urls: Seq<String>,
    format: Seq<char>,
    output_dir: Option<String>,
    dir_parent_exists: bool,
    e: AppError,
) -> bool {
    if urls.len() == 0 {
        (e matches AppError::Download(DownloadError::Failed(m)) && m@ == "Empty URL list"@)
    } else if urls.len() > MAX_SONGS_PER_BATCH {
        e == AppError::Download(DownloadError::TooManySongs(MAX_SONGS_PER_BATCH))
    } else if !valid_format(format) {
        (e matches AppError::Download(DownloadError::InvalidFormat(m)) && m@
            == "Use one of: mp3, flac, ogg, m4a, opus"@)
    } else if !all_urls_valid(urls) {
        (e matches AppError::Download(DownloadError::InvalidUrl(u)) && u@ == urls[first_invalid_url(
            urls,
        )]@)
    } else {
        match output_dir {
            Some(d) => {
                if has_substring(d@, ".."@) {
                    (e matches AppError::File(FileError::PathTraversal(p)) && p@ == d@)
                } else if !dir_parent_exists {
                    (e matches AppError::Download(DownloadError::OutputDirNotFound(p)) && p@ == d@)
                } else {
                    false
                }
            },
            None => false,
        }
    }
}

/// The segment size actually used for a request.
pub open spec fn clamped_segment_size(s: usize) -> usize {
    if s < 1 {
        1
    } else if s > MAX_SEGMENT_SIZE {
        MAX_SEGMENT_SIZE
    } else {
        s
    }
}

/// The pacing delay actually used for a request.
pub open spec fn clamped_delay(d: u64) -> u64 {
    if d < MIN_DELAY_SECS {
        MIN_DELAY_SECS
    } else if d > MAX_DELAY_SECS {
        MAX_DELAY_SECS
    } else {
        d
    }
}

impl DownloadJob {
    /// A validated job: non-empty and bounded identifier list, clamped
    /// knobs, allowed format, well-shaped URLs, traversal-free directory.
    pub open spec fn wf(self) -> bool {
        &&& 1 <= self.urls@.len() <= MAX_SONGS_PER_BATCH
    &&& 1 <= self.segment_size <= MAX_SEGMENT_SIZE
    &&& MIN_DELAY_SECS <= self.delay_secs <= MAX_DELAY_SECS
    &&& valid_format(self.format@)
    &&& all_urls_valid(self.urls@)
    &&& match self.output_dir {
        Some(d) => !has_substring(d@, ".."@),
        None => true,
    }
    }
}

/// Validates a download request, applying the rules in order: non-empty
/// list, batch ceiling, allowed format, URL shape of every reference, and
/// the output-directory checks. No work starts when any rule fails.
/// `dir_parent_exists` reports whether the supplied directory's parent exists
/// on disk (true when it has no parent); the embedding application fills it.
pub fn validate_job(
    urls: Vec<String>,
    segment_size: usize,
    delay: u64,
    output_template: String,
    format: String,
    output_dir: Option<String>,
    dir_parent_exists: bool,
) -> (r: Result<DownloadJob, AppError>)
    ensures
        r is Ok <==> job_accepted(urls@, format@, output_dir, dir_parent_exists),
        r matches Ok(job) ==> job.urls == urls && job.output_template == output_template
            && job.format == format && job.output_dir == output_dir && job.segment_size
            == clamped_segment_size(segment_size) && job.delay_secs == clamped_delay(delay)
            && job.wf(),
        r matches Err(e) ==> job_rejected_with(urls@, format@, output_dir, dir_parent_exists, e),
{
    if urls.len() == 0 {
        return Err(AppError::Download(DownloadError::Failed(String::from_str("Empty URL list"))));
    }
    if urls.len() > MAX_SONGS_PER_BATCH {
        return Err(AppError::Download(DownloadError::TooManySongs(MAX_SONGS_PER_BATCH)));
    }
    match validate_download_format(format.as_str()) {
        Err(e) => {
            return Err(e);
        },
        Ok(_) => {},
    }
    let mut i: usize = 0;
    while i < urls.len()
        invariant
            i <= urls@.len(),
            0 < urls@.len() <= MAX_SONGS_PER_BATCH,
            valid_format(format@),
            forall|j: int| 0 <= j < i ==> starts_with(
                #[trigger] urls@[j]@,
                spotify_track_prefix(),
            ),
        decreases urls@.len() - i,
    {
        if !str_starts_with(urls[i].as_str(), "https://open.spotify.com/track/") {
            let e = AppError::Download(DownloadError::InvalidUrl(urls[i].clone()));
            proof {
                let k = i as int;
                assert(!starts_with(urls@[k]@, spotify_track_prefix()));
                assert(!all_urls_valid(urls@));
                lemma_first_invalid_at(urls@, k);
            }
            return Err(e);
        }
        i += 1;
    }
    match &output_dir {
        Some(d) => {
            if contains_substring(d.as_str(), "..") {
                return Err(AppError::File(FileError::PathTraversal(d.clone())));
            }
            if !dir_parent_exists {
                return Err(AppError::Download(DownloadError::OutputDirNotFound(d.clone())));
            }
        },
        None => {},
    }
    let seg: usize = if segment_size < 1 {
        1
    } else if segment_size > MAX_SEGMENT_SIZE {
        MAX_SEGMENT_SIZE
    } else {
        segment_size
    };
    let del: u64 = if delay < MIN_DELAY_SECS {
        MIN_DELAY_SECS
    } else if delay > MAX_DELAY_SECS {
        MAX_DELAY_SECS
    } else {
        delay
    };
    Ok(DownloadJob { urls, segment_size: seg, delay_secs: del, output_template, format, output_dir })
}

} // verus!

verus! {

/// Success/failure totals of a finished job.
#[derive(Debug, Clone, PartialEq, Eq)]
pub struct JobOutcome {
    /// Tasks whose download succeeded.
    pub total_downloaded: usize,
    /// Tasks that failed in any way.
    pub total_failed: usize,
}

/// What a finished job hands back: the totals, every event pushed to the
/// progress sink in order, and how often the pacing delay was requested.
#[derive(Debug, Clone, PartialEq, Eq)]
pub struct JobReport {
    pub outcome: JobOutcome,
    pub events: Vec<JobEvent>,
    pub delays: usize,
}

/// Number of successful tasks among `rs[from..to]`.
pub open spec fn count_successes(rs: Seq<TaskResult>, from: int, to: int) -> int
    decreases to - from,
{
    if from >= to {
        0
    } else {
        count_successes(rs, from, to - 1) + (if is_success(rs[to - 1]) {
            1int
        } else {
            0int
        })
    }
}

proof fn lemma_count_successes_split(rs: Seq<TaskResult>, a: int, b: int, c: int)
    requires
        a <= b <= c,
    ensures
        count_successes(rs, a, c) == count_successes(rs, a, b) + count_successes(rs, b, c),
    decreases c - b,
{
    if c > b {
        lemma_count_successes_split(rs, a, b, c - 1);
    }
}

/// Number of progress events in an event trace.
pub open spec fn count_progress_events(evs: Seq<JobEvent>) -> int
    decreases evs.len(),
{
    if evs.len() == 0 {
        0
    } else {
        count_progress_events(evs.drop_last()) + (if evs.last() matches JobEvent::Progress(_) {
            1int
        } else {
            0int
        })
    }
}

/// Number of segment-finished events in an event trace.
pub open spec fn count_segment_events(evs: Seq<JobEvent>) -> int
    decreases evs.len(),
{
    if evs.len() == 0 {
        0
    } else {
        count_segment_events(evs.drop_last()) + (
        if evs.last() matches JobEvent::SegmentFinished(_) {
            1int
        } else {
            0int
        })
    }
}

/// Number of job-finished events in an event trace.
pub open spec fn count_finished_events(evs: Seq<JobEvent>) -> int
    decreases evs.len(),
{
    if evs.len() == 0 {
        0
    } else {
        count_finished_events(evs.drop_last()) + (if evs.last() matches JobEvent::Finished(_) {
            1int
        } else {
            0int
        })
    }
}

/// The status a progress event carries for a task result.
pub open spec fn event_status_matches(r: TaskResult, st: TaskStatus) -> bool {
    match r {
        TaskResult::Finished(s) => st == s,
        TaskResult::Crashed => (st matches TaskStatus::ProcessFailure(m) && m@
            == "task failed to run"@),
    }
}

/// `ev` is the progress event for task `k` (zero-based across the job).
pub open spec fn is_progress_for(
    ev: JobEvent,
    urls: Seq<String>,
    results: Seq<TaskResult>,
    k: int,
    total: int,
) -> bool {
    (ev matches JobEvent::Progress(p) && p.index == k + 1 && p.total == total && p.url@ == urls[k]@
        && p.song@ == song_id_of(urls[k]@) && event_status_matches(results[k], p.status))
}

/// Tallies one completed in-flight task (the earliest unfinished one, since
/// this driver consumes pre-supplied results in order) and pushes its
/// progress event.
fn tally_one(
    urls: &Vec<String>,
    results: &Vec<TaskResult>,
    seg_start: usize,
    w: &mut SegmentWindow,
    events: &mut Vec<JobEvent>,
)
    requires
        old(w).wf(),
        old(w).in_flight() > 0,
        results@.len() == urls@.len(),
        seg_start + old(w).seg_len <= urls@.len(),
    ensures
        final(w).wf(),
        final(w).seg_len == old(w).seg_len && final(w).spawned == old(w).spawned,
        final(w).completed == old(w).completed + 1,
        final(w).downloaded as int == old(w).downloaded + (if is_success(
            results@[seg_start + old(w).completed],
        ) {
            1int
        } else {
            0int
        }),
        final(w).failed as int == old(w).failed + (if is_success(
            results@[seg_start + old(w).completed],
        ) {
            0int
        } else {
            1int
        }),
        final(events)@.len() == old(events)@.len() + 1,
        forall|j: int| 0 <= j < old(events)@.len() ==> final(events)@[j] == old(events)@[j],
        is_progress_for(
            final(events)@[old(events)@.len() as int],
            urls@,
            results@,
            seg_start + old(w).completed,
            urls@.len() as int,
        ),
        count_progress_events(final(events)@) == count_progress_events(old(events)@) + 1,
        count_segment_events(final(events)@) == count_segment_events(old(events)@),
        count_finished_events(final(events)@) == count_finished_events(old(events)@),
{
    let total = urls.len();
    let k = seg_start + w.completed;
    let st: TaskStatus = match &results[k] {
        TaskResult::Finished(TaskStatus::Succeeded) => TaskStatus::Succeeded,
        TaskResult::Finished(TaskStatus::ProviderError) => TaskStatus::ProviderError,
        TaskResult::Finished(TaskStatus::ProcessFailure(m)) => TaskStatus::ProcessFailure(
            m.clone(),
        ),
        TaskResult::Finished(TaskStatus::TimedOut) => TaskStatus::TimedOut,
        TaskResult::Crashed => TaskStatus::ProcessFailure(String::from_str("task failed to run")),
    };
    let p = DownloadProgress {
        song: extract_song_name(urls[k].as_str()),
        index: k + 1,
        total,
        status: st,
        url: urls[k].clone(),
    };
    let ghost before = events@;
    events.push(JobEvent::Progress(p));
    proof {
        assert(events@.drop_last() =~= before);
    }
    w.record_completion(&results[k]);
}

/// Runs one segment of the job over pre-supplied task results, enforcing the
/// sliding window: spawn until the cap is reached, tally one before spawning
/// the next, then drain the rest. Every task of the segment is tallied
/// exactly once and gets exactly one progress event.
pub fn run_segment(
    urls: &Vec<String>,
    results: &Vec<TaskResult>,
    seg_start: usize,
    seg_len: usize,
    events: &mut Vec<JobEvent>,
) -> (counts: (usize, usize))
    requires
        results@.len() == urls@.len(),
        seg_start + seg_len <= urls@.len(),
    ensures
        counts.0 + counts.1 == seg_len,
        counts.0 as int == count_successes(results@, seg_start as int, seg_start + seg_len),
        final(events)@.len() == old(events)@.len() + seg_len,
        forall|j: int| 0 <= j < old(events)@.len() ==> final(events)@[j] == old(events)@[j],
        forall|j: int|
            0 <= j < seg_len ==> is_progress_for(
                #[trigger] final(events)@[old(events)@.len() + j],
                urls@,
                results@,
                seg_start + j,
                urls@.len() as int,
            ),
        count_progress_events(final(events)@) == count_progress_events(old(events)@) + seg_len,
        count_segment_events(final(events)@) == count_segment_events(old(events)@),
        count_finished_events(final(events)@) == count_finished_events(old(events)@),
{
    let ghost base = events@;
    let mut w = SegmentWindow::new(seg_len);
    while w.spawned < seg_len
        invariant
            w.wf(),
            w.seg_len == seg_len,
            w.in_flight() < MAX_CONCURRENT_DOWNLOADS,
            results@.len() == urls@.len(),
            seg_start + seg_len <= urls@.len(),
            w.downloaded as int == count_successes(
                results@,
                seg_start as int,
                seg_start + w.completed,
            ),
            events@.len() == base.len() + w.completed,
            forall|j: int| 0 <= j < base.len() ==> events@[j] == base[j],
            forall|j: int|
                0 <= j < w.completed ==> is_progress_for(
                    #[trigger] events@[base.len() + j],
                    urls@,
                    results@,
                    seg_start + j,
                    urls@.len() as int,
                ),
            count_progress_events(events@) == count_progress_events(base) + w.completed,
            count_segment_events(events@) == count_segment_events(base),
            count_finished_events(events@) == count_finished_events(base),
        decreases seg_len - w.spawned,
    {
        w.record_spawn();
        if w.spawned - w.completed >= MAX_CONCURRENT_DOWNLOADS {
            tally_one(urls, results, seg_start, &mut w, events);
        }
    }
    while w.completed < seg_len
        invariant
            w.wf(),
            w.seg_len == seg_len,
            w.spawned == seg_len,
            results@.len() == urls@.len(),
            seg_start + seg_len <= urls@.len(),
            w.downloaded as int == count_successes(
                results@,
                seg_start as int,
                seg_start + w.completed,
            ),
            events@.len() == base.len() + w.completed,
            forall|j: int| 0 <= j < base.len() ==> events@[j] == base[j],
            forall|j: int|
                0 <= j < w.completed ==> is_progress_for(
                    #[trigger] events@[base.len() + j],
                    urls@,
                    results@,
                    seg_start + j,
                    urls@.len() as int,
                ),
            count_progress_events(events@) == count_progress_events(base) + w.completed,
            count_segment_events(events@) == count_segment_events(base),
            count_finished_events(events@) == count_finished_events(base),
        decreases seg_len - w.completed,
    {
        tally_one(urls, results, seg_start, &mut w, events);
    }
    proof {
        lemma_segment_accounting(w);
    }
    (w.downloaded, w.failed)
}

} // verus!

verus! {

/// Position of the progress event of task `t` (zero-based across the job)
/// in the job's event trace, for segment size `s`: each earlier segment
/// contributed its tasks' events and one segment-finished event.
pub open spec fn progress_event_index(t: int, s: int) -> int {
    t + t / s
}

/// Position of the finished event of the segment with zero-based index `k`
/// in the job's event trace.
pub open spec fn segment_event_index(k: int, s: int, total: int) -> int {
    (if (k + 1) * s <= total {
        (k + 1) * s
    } else {
        total
    }) + k
}

/// `ev` is the finished event of the segment with zero-based index `k`.
pub open spec fn is_segment_finished_for(ev: JobEvent, k: int) -> bool {
    (ev matches JobEvent::SegmentFinished(f) && f.segment == k + 1 && f.message@ == "Segment "@
        + dec_str((k + 1) as nat) + " completed"@)
}

proof fn lemma_task_segment_index(t: int, k: int, s: int)
    requires
        s >= 1,
        k >= 0,
        k * s <= t,
        t - k * s < s,
    ensures
        t / s == k,
{
    let r = t - k * s;
    assert(t == k * s + r);
    vstd::arithmetic::div_mod::lemma_fundamental_div_mod_converse_div(t, s, k, r);
}

proof fn lemma_div_below(t: int, k: int, s: int)
    requires
        s >= 1,
        k >= 0,
        0 <= t < k * s,
    ensures
        t / s < k,
{
    vstd::arithmetic::div_mod::lemma_fundamental_div_mod(t, s);
    vstd::arithmetic::div_mod::lemma_mod_division_less_than_divisor(t, s);
    assert(t == s * (t / s) + t % s);
    if t / s >= k {
        vstd::arithmetic::mul::lemma_mul_inequality(k, t / s, s);
        assert(k * s <= (t / s) * s);
        assert((t / s) * s == s * (t / s)) by (nonlinear_arith);
        assert(t >= s * (t / s));
        assert(false);
    }
}

proof fn lemma_ceil_mul_ge(total: int, s: int)
    requires
        s >= 1,
        total >= 0,
    ensures
        num_segments(total, s) * s >= total,
{
    let x = total + s - 1;
    let q = x / s;
    vstd::arithmetic::div_mod::lemma_fundamental_div_mod(x, s);
    vstd::arithmetic::div_mod::lemma_mod_division_less_than_divisor(x, s);
    assert(x == s * q + x % s);
    assert(x % s <= s - 1);
    assert(s * q >= x - (s - 1));
    assert(q * s == s * q) by (nonlinear_arith);
}

/// Runs a validated job over pre-supplied task results: segments are
/// processed strictly in order, each through the sliding window; totals are
/// accumulated; one segment-finished event follows each segment; the pacing
/// delay is requested after every segment except the last; and a single
/// job-finished event carrying the totals closes the trace.
pub fn run_job(job: &DownloadJob, results: &Vec<TaskResult>) -> (r: JobReport)
    requires
        job.wf(),
        results@.len() == job.urls@.len(),
    ensures
        r.outcome.total_downloaded + r.outcome.total_failed == job.urls@.len(),
        r.outcome.total_downloaded as int == count_successes(
            results@,
            0,
            results@.len() as int,
        ),
        r.delays as int == num_segments(job.urls@.len() as int, job.segment_size as int) - 1,
        count_progress_events(r.events@) == job.urls@.len(),
        count_segment_events(r.events@) == num_segments(
            job.urls@.len() as int,
            job.segment_size as int,
        ),
        count_finished_events(r.events@) == 1,
        r.events@.len() == job.urls@.len() + num_segments(
            job.urls@.len() as int,
            job.segment_size as int,
        ) + 1,
        (r.events@.last() matches JobEvent::Finished(f) && f.total_downloaded
            == r.outcome.total_downloaded && f.total_failed == r.outcome.total_failed),
        forall|t: int|
            0 <= t < job.urls@.len() ==> is_progress_for(
                #[trigger] r.events@[progress_event_index(t, job.segment_size as int)],
                job.urls@,
                results@,
                t,
                job.urls@.len() as int,
            ),
        forall|k: int|
            0 <= k < num_segments(job.urls@.len() as int, job.segment_size as int)
                ==> is_segment_finished_for(
                #[trigger] r.events@[segment_event_index(
                    k,
                    job.segment_size as int,
                    job.urls@.len() as int,
                )],
                k,
            ),
{
    let total = job.urls.len();
    let sizes = plan_segments(total, job.segment_size);
    let ghost all = sizes@;
    let num_segs = sizes.len();
    let mut events: Vec<JobEvent> = Vec::new();
    let mut downloaded: usize = 0;
    let mut failed: usize = 0;
    let mut seg_start: usize = 0;
    let mut delays: usize = 0;
    let mut s: usize = 0;
    proof {
        assert(all.subrange(0, 0) =~= Seq::<usize>::empty());
        assert(all.subrange(0, num_segs as int) =~= all);
    }
    while s < num_segs
        invariant
            job.wf(),
            results@.len() == job.urls@.len(),
            total == job.urls@.len(),
            sizes@ == all,
            num_segs == all.len(),
            num_segs >= 1,
            num_segs as int == num_segments(total as int, job.segment_size as int),
            s <= num_segs,
            seq_sum(all) == total,
            forall|i: int| 0 <= i < all.len() ==> 1 <= #[trigger] all[i] <= job.segment_size,
            forall|i: int| 0 <= i < all.len() - 1 ==> #[trigger] all[i] == job.segment_size,
            seg_start as int == seq_sum(all.subrange(0, s as int)),
            seg_start <= total,
            s < num_segs ==> seg_start as int == s as int * (job.segment_size as int),
            downloaded + failed == seg_start,
            downloaded as int == count_successes(results@, 0, seg_start as int),
            events@.len() == seg_start + s,
            count_progress_events(events@) == seg_start,
            count_segment_events(events@) == s as int,
            count_finished_events(events@) == 0,
            forall|t: int|
                0 <= t < seg_start ==> is_progress_for(
                    #[trigger] events@[progress_event_index(t, job.segment_size as int)],
                    job.urls@,
                    results@,
                    t,
                    total as int,
                ),
            forall|k: int|
                0 <= k < s ==> is_segment_finished_for(
                    #[trigger] events@[segment_event_index(
                        k,
                        job.segment_size as int,
                        total as int,
                    )],
                    k,
                ),
            delays == (if s < num_segs {
                s as int
            } else {
                num_segs - 1
            }),
        decreases num_segs - s,
    {
        let seg_len = sizes[s];
        proof {
            assert(all.subrange(s as int, num_segs as int) =~= seq![all[s as int]] + all.subrange(
                s + 1,
                num_segs as int,
            ));
            assert(all =~= all.subrange(0, s as int) + all.subrange(s as int, num_segs as int));
            lemma_seq_sum_add(all.subrange(0, s as int), all.subrange(s as int, num_segs as int));
            lemma_seq_sum_add(
                seq![all[s as int]],
                all.subrange(s + 1, num_segs as int),
            );
            assert(seq_sum(seq![all[s as int]]) == all[s as int]) by {
                assert(seq_sum(Seq::<usize>::empty()) == 0);
                assert(seq![all[s as int]].drop_last() =~= Seq::<usize>::empty());
                assert(seq![all[s as int]].drop_last() == Seq::<usize>::empty());
            }
            lemma_seq_sum_nonneg(all.subrange(s + 1, num_segs as int));
            assert(seg_start + seg_len <= total);
        }
        let ghost base_len = events@.len() as int;
        let ghost base_seq = events@;
        let (d, f) = run_segment(&job.urls, results, seg_start, seg_len, &mut events);
        proof {
            lemma_count_successes_split(
                results@,
                0,
                seg_start as int,
                seg_start + seg_len,
            );
            let segsz = job.segment_size as int;
            // Earlier events sit below the appended block and are untouched.
            assert forall|t: int| 0 <= t < seg_start implies is_progress_for(
                events@[progress_event_index(t, segsz)],
                job.urls@,
                results@,
                t,
                total as int,
            ) by {
                lemma_div_below(t, s as int, segsz);
                assert(progress_event_index(t, segsz) < base_len);
                assert(is_progress_for(
                    base_seq[progress_event_index(t, segsz)],
                    job.urls@,
                    results@,
                    t,
                    total as int,
                ));
                assert(events@[progress_event_index(t, segsz)] == base_seq[progress_event_index(
                    t,
                    segsz,
                )]);
            }
            assert forall|k: int| 0 <= k < s implies is_segment_finished_for(
                events@[segment_event_index(k, segsz, total as int)],
                k,
            ) by {
                vstd::arithmetic::mul::lemma_mul_inequality(k + 1, s as int, segsz);
                assert(segment_event_index(k, segsz, total as int) < base_len);
                assert(is_segment_finished_for(
                    base_seq[segment_event_index(k, segsz, total as int)],
                    k,
                ));
                assert(events@[segment_event_index(k, segsz, total as int)]
                    == base_seq[segment_event_index(k, segsz, total as int)]);
            }
            // The appended progress events sit at their trace positions.
            assert forall|t: int| seg_start <= t < seg_start + seg_len implies is_progress_for(
                events@[progress_event_index(t, segsz)],
                job.urls@,
                results@,
                t,
                total as int,
            ) by {
                lemma_task_segment_index(t, s as int, segsz);
                assert(progress_event_index(t, segsz) == base_len + (t - seg_start));
                assert(is_progress_for(
                    events@[base_len + (t - seg_start)],
                    job.urls@,
                    results@,
                    seg_start + (t - seg_start),
                    total as int,
                ));
            }
        }
        downloaded = downloaded + d;
        failed = failed + f;
        let seg_message = String::from_str("Segment ").concat(
            fmt_u64((s + 1) as u64).as_str(),
        ).concat(" completed");
        let ghost before = events@;
        events.push(
            JobEvent::SegmentFinished(
                DownloadSegmentFinished { segment: s + 1, message: seg_message },
            ),
        );
        proof {
            assert(events@.drop_last() =~= before);
            assert(all.subrange(0, s + 1).drop_last() =~= all.subrange(0, s as int));
            assert(seq_sum(all.subrange(0, s + 1)) == seg_start + seg_len);
            let segsz = job.segment_size as int;
            // The pushed segment-finished event sits at its trace position.
            if s + 1 < num_segs {
                assert(all[s as int] == job.segment_size);
                lemma_full_prefix_sum(all.subrange(0, s + 1), job.segment_size);
                assert((s + 1) * segsz == seg_start + seg_len);
                assert(all =~= all.subrange(0, s + 1) + all.subrange(s + 1, num_segs as int));
                lemma_seq_sum_add(all.subrange(0, s + 1), all.subrange(s + 1, num_segs as int));
                lemma_seq_sum_nonneg(all.subrange(s + 1, num_segs as int));
                assert((s + 1) * segsz <= total);
            } else {
                assert(all.subrange(0, s + 1) =~= all);
                assert(seg_start + seg_len == total);
                assert(num_segs as int == num_segments(total as int, segsz));
                lemma_ceil_mul_ge(total as int, segsz);
                assert((s as int + 1) * segsz >= total);
            }
            assert(segment_event_index(s as int, segsz, total as int) == seg_start + seg_len
                + s);
            assert(is_segment_finished_for(
                events@[seg_start + seg_len + s],
                s as int,
            ));
            // Every earlier fact still holds of the trace with the new event
            // on top.
            assert forall|t: int| 0 <= t < seg_start + seg_len implies is_progress_for(
                events@[progress_event_index(t, segsz)],
                job.urls@,
                results@,
                t,
                total as int,
            ) by {
                if t < seg_start {
                    lemma_div_below(t, s as int, segsz);
                } else {
                    lemma_task_segment_index(t, s as int, segsz);
                }
                assert(progress_event_index(t, segsz) < before.len());
                assert(is_progress_for(
                    before[progress_event_index(t, segsz)],
                    job.urls@,
                    results@,
                    t,
                    total as int,
                ));
                assert(events@[progress_event_index(t, segsz)] == before[progress_event_index(
                    t,
                    segsz,
                )]);
            }
            assert forall|k: int| 0 <= k < s + 1 implies is_segment_finished_for(
                events@[segment_event_index(k, segsz, total as int)],
                k,
            ) by {
                if k < s {
                    vstd::arithmetic::mul::lemma_mul_inequality(k + 1, s as int, segsz);
                    assert(segment_event_index(k, segsz, total as int) < before.len());
                    assert(is_segment_finished_for(
                        before[segment_event_index(k, segsz, total as int)],
                        k,
                    ));
                    assert(events@[segment_event_index(k, segsz, total as int)]
                        == before[segment_event_index(k, segsz, total as int)]);
                }
            }
        }
        seg_start = seg_start + seg_len;
        if s + 1 < num_segs {
            delays = delays + 1;
        }
        s = s + 1;
    }
    proof {
        assert(all.subrange(0, num_segs as int) =~= all);
        assert(seg_start == total);
    }
    let ghost before = events@;
    events.push(
        JobEvent::Finished(
            DownloadFinished {
                message: String::from_str("Download completed"),
                total_downloaded: downloaded,
                total_failed: failed,
            },
        ),
    );
    proof {
        assert(events@.drop_last() =~= before);
        assert(total > 0);
        assert(num_segs as int == num_segments(total as int, job.segment_size as int));
        let segsz = job.segment_size as int;
        // The earlier facts still hold of the trace with the job event on top.
        assert forall|t: int| 0 <= t < total implies is_progress_for(
            events@[progress_event_index(t, segsz)],
            job.urls@,
            results@,
            t,
            total as int,
        ) by {
            lemma_ceil_mul_ge(total as int, segsz);
            lemma_div_below(t, num_segs as int, segsz);
            assert(progress_event_index(t, segsz) < before.len());
            assert(is_progress_for(
                before[progress_event_index(t, segsz)],
                job.urls@,
                results@,
                t,
                total as int,
            ));
            assert(events@[progress_event_index(t, segsz)] == before[progress_event_index(
                t,
                segsz,
            )]);
        }
        assert forall|k: int| 0 <= k < num_segs implies is_segment_finished_for(
            events@[segment_event_index(k, segsz, total as int)],
            k,
        ) by {
            lemma_ceil_mul_ge(total as int, segsz);
            vstd::arithmetic::mul::lemma_mul_inequality(k + 1, num_segs as int, segsz);
            assert(segment_event_index(k, segsz, total as int) < before.len());
            assert(is_segment_finished_for(
                before[segment_event_index(k, segsz, total as int)],
                k,
            ));
            assert(events@[segment_event_index(k, segsz, total as int)]
                == before[segment_event_index(k, segsz, total as int)]);
        }
    }
    JobReport {
        outcome: JobOutcome { total_downloaded: downloaded, total_failed: failed },
        events,
        delays,
    }
}

/// The converter probe reported a healthy tool.
pub open spec fn probe_ok(o: ProcessOutcome) -> bool {
    o matches ProcessOutcome::Completed { exit_success: true, .. }
}

/// The error the tool probe produces for a failed outcome.
pub open spec fn probe_rejected_with(o: ProcessOutcome, e: AppError) -> bool {
    match o {
        ProcessOutcome::Completed { exit_success, .. } => !exit_success && e == AppError::Download(
            DownloadError::SpotdlNotInstalled,
        ),
        ProcessOutcome::SpawnFailure(_) => e == AppError::Download(
            DownloadError::SpotdlNotInstalled,
        ),
        ProcessOutcome::TimedOut => e == AppError::Download(
            DownloadError::Timeout(CHECK_TIMEOUT_SECS),
        ),
    }
}

impl DownloadService {
    /// The whole batch pipeline over pre-supplied process outcomes:
    /// validation, the tool probe, then the segmented run. A pre-flight
    /// failure rejects the job before any task result is consumed and before
    /// any event exists; once pre-flight passes, the job always produces a
    /// report, never an error, with every task tallied exactly once.
    pub fn download_tracks_segmented(
        urls: Vec<String>,
        segment_size: usize,
        delay: u64,
        output_template: String,
        format: String,
        output_dir: Option<String>,
        dir_parent_exists: bool,
        probe: &ProcessOutcome,
        results: &Vec<TaskResult>,
    ) -> (r: Result<JobReport, AppError>)
        requires
            results@.len() == urls@.len(),
        ensures
            r is Ok <==> job_accepted(urls@, format@, output_dir, dir_parent_exists) && probe_ok(
                *probe,
            ),
            r matches Ok(report) ==> {
                let segs = num_segments(
                    urls@.len() as int,
                    clamped_segment_size(segment_size) as int,
                );
                &&& report.outcome.total_downloaded + report.outcome.total_failed == urls@.len()
                &&& report.outcome.total_downloaded as int == count_successes(
                    results@,
                    0,
                    results@.len() as int,
                )
                &&& report.delays as int == segs - 1
                &&& count_progress_events(report.events@) == urls@.len()
                &&& count_segment_events(report.events@) == segs
                &&& count_finished_events(report.events@) == 1
                &&& report.events@.len() == urls@.len() + segs + 1
                &&& (report.events@.last() matches JobEvent::Finished(f) && f.total_downloaded
                    == report.outcome.total_downloaded && f.total_failed
                    == report.outcome.total_failed)
                &&& forall|t: int|
                    0 <= t < urls@.len() ==> is_progress_for(
                        #[trigger] report.events@[progress_event_index(
                            t,
                            clamped_segment_size(segment_size) as int,
                        )],
                        urls@,
                        results@,
                        t,
                        urls@.len() as int,
                    )
                &&& forall|k: int|
                    0 <= k < segs ==> is_segment_finished_for(
                        #[trigger] report.events@[segment_event_index(
                            k,
                            clamped_segment_size(segment_size) as int,
                            urls@.len() as int,
                        )],
                        k,
                    )
            },
            r matches Err(e) ==> job_rejected_with(
                urls@,
                format@,
                output_dir,
                dir_parent_exists,
                e,
            ) || (job_accepted(urls@, format@, output_dir, dir_parent_exists)
                && probe_rejected_with(*probe, e)),
    {
        let job = match validate_job(
            urls,
            segment_size,
            delay,
            output_template,
            format,
            output_dir,
            dir_parent_exists,
        ) {
            Ok(job) => job,
            Err(e) => {
                return Err(e);
            },
        };
        match Self::check_installed(probe) {
            Ok(_version) => {},
            Err(e) => {
                return Err(e);
            },
        }
        Ok(run_job(&job, results))
    }
}

} // verus!
