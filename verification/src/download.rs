//! Download tasks, and progress and retry accounting for a batch of them.
//!
//! Each task in a batch is attempted up to a fixed number of times with a
//! fixed backoff interval; every completion (success or permanent failure)
//! advances an aggregate progress snapshot, and the batch as a whole succeeds
//! only if no task failed permanently.

use vstd::prelude::*;

use crate::errors::DownloadError;

verus! {

/// Maximum number of attempts a single download task is given.
pub const MAX_ATTEMPTS: u64 = 3;

/// Fixed interval, in milliseconds, between two attempts of the same task.
pub const RETRY_INTERVAL_MS: u64 = 100;

/// One remote artifact to fetch: a source url, a destination path, and the
/// expected size and content hash where the manifest supplies them.
#[derive(Debug, Clone, PartialEq, Eq)]
pub struct DownloadTask {
    pub url: String,
    pub path: String,
    pub size: Option<i64>,
    pub sha1: Option<String>,
}

/// The mathematical value of a [`DownloadTask`].
pub struct TaskModel {
    pub url: Seq<char>,
    pub path: Seq<char>,
    pub size: Option<int>,
    pub sha1: Option<Seq<char>>,
}

impl View for DownloadTask {
    type V = TaskModel;

    open spec fn view(&self) -> TaskModel {
        TaskModel {
            url: self.url@,
            path: self.path@,
            size: match self.size {
                Some(n) => Some(n as int),
                None => None,
            },
            sha1: match self.sha1 {
                Some(ref s) => Some(s@),
                None => None,
            },
        }
    }
}

/// Aggregate snapshot of a running batch: how many tasks exist and how many
/// have finished (successfully or not).
#[derive(Clone, Copy, Debug, PartialEq, Eq, Structural)]
pub struct DownloadProgress {
    pub total_size: u64,
    pub finished: u64,
}

/// What the driver of a task should do after one attempt.
#[derive(Debug, Clone, PartialEq, Eq, Structural)]
pub enum RetryDecision {
    /// The attempt succeeded; the task is done.
    Done,
    /// The attempt failed and attempts remain: try again after this many
    /// milliseconds.
    RetryAfterMillis(u64),
    /// The attempt failed and the attempt budget is spent: the task has
    /// failed permanently.
    GiveUp,
}

/// Attempt accounting for one download task: at most [`MAX_ATTEMPTS`]
/// attempts, a fixed interval between them, permanent failure only once the
/// budget is spent.
#[derive(Debug, Clone, PartialEq, Eq, Structural)]
pub struct RetryTracker {
    pub attempts: u64,
}

impl RetryTracker {
    /// A task that has not been attempted yet.
    pub fn new() -> (t: RetryTracker)
        ensures
            t.attempts == 0,
    {
        RetryTracker { attempts: 0 }
    }

    /// Whether another attempt may be made.
    pub fn can_attempt(&self) -> (r: bool)
        ensures
            r == (self.attempts < MAX_ATTEMPTS),
    {
        self.attempts < MAX_ATTEMPTS
    }

    /// Records the outcome of one attempt and says how to continue: done on
    /// success, a fixed-interval retry while attempts remain, permanent
    /// failure on the last allowed attempt.
    pub fn record_attempt(&mut self, succeeded: bool) -> (d: RetryDecision)
        requires
            old(self).attempts < MAX_ATTEMPTS,
        ensures
            final(self).attempts == old(self).attempts + 1,
            succeeded ==> d == RetryDecision::Done,
            !succeeded && old(self).attempts + 1 < MAX_ATTEMPTS ==> d
                == RetryDecision::RetryAfterMillis(RETRY_INTERVAL_MS),
            !succeeded && old(self).attempts + 1 == MAX_ATTEMPTS ==> d == RetryDecision::GiveUp,
    {
        self.attempts = self.attempts + 1;
        if succeeded {
            RetryDecision::Done
        } else if self.attempts < MAX_ATTEMPTS {
            RetryDecision::RetryAfterMillis(RETRY_INTERVAL_MS)
        } else {
            RetryDecision::GiveUp
        }
    }
}

/// A permanent, per-task failure: the source url and the cause, after the
/// full attempt budget was spent.
#[derive(Debug, Clone, PartialEq, Eq)]
pub struct DownloadFailure {
    pub url: String,
    pub cause: DownloadError,
    pub attempts: u64,
}

/// Single-consumer aggregation point for one batch: receives one completion
/// event per task, counts them, collects permanent failures, and reports the
/// batch as succeeded only if no task failed.
#[derive(Debug)]
pub struct BatchTracker {
    pub total: u64,
    pub finished: u64,
    pub failures: Vec<DownloadFailure>,
}

impl BatchTracker {
    /// The tracker's internal invariant: no more completions than tasks, and
    /// no more failures than completions.
    pub open spec fn wf(&self) -> bool {
        self.finished <= self.total && self.failures@.len() <= self.finished
    }

    /// A tracker for a batch of `total` tasks, none finished yet.
    pub fn new(total: u64) -> (t: BatchTracker)
        ensures
            t.wf(),
            t.total == total,
            t.finished == 0,
            t.failures@ =~= Seq::<DownloadFailure>::empty(),
    {
        BatchTracker { total, finished: 0, failures: Vec::new() }
    }

    /// Whether every task of the batch has finished.
    pub fn is_complete(&self) -> (r: bool)
        ensures
            r == (self.finished == self.total),
    {
        self.finished == self.total
    }

    /// Records that one task finished, successfully when `failure` is `None`
    /// and permanently failed otherwise, and returns the progress snapshot to
    /// publish: `finished` counts completions of either kind, so progress
    /// reaches `total` even under partial failure.
    pub fn record_completion(&mut self, failure: Option<DownloadFailure>) -> (p: DownloadProgress)
        requires
            old(self).wf(),
            old(self).finished < old(self).total,
        ensures
            final(self).wf(),
            final(self).total == old(self).total,
            final(self).finished == old(self).finished + 1,
            match failure {
                Some(f) => final(self).failures@ =~= old(self).failures@.push(f),
                None => final(self).failures@ =~= old(self).failures@,
            },
            p.total_size == old(self).total,
            p.finished == old(self).finished + 1,
    {
        self.finished = self.finished + 1;
        match failure {
            Some(f) => self.failures.push(f),
            None => (),
        }
        DownloadProgress { total_size: self.total, finished: self.finished }
    }

    /// The batch's verdict, once complete: `Ok` only if zero tasks failed,
    /// else every permanent failure, each with its url and cause.
    pub fn into_result(self) -> (r: Result<(), Vec<DownloadFailure>>)
        requires
            self.finished == self.total,
        ensures
            self.failures@.len() == 0 <==> r is Ok,
            r matches Err(fs) ==> fs@ =~= self.failures@,
    {
        if self.failures.len() == 0 {
            Ok(())
        } else {
            Err(self.failures)
        }
    }
}

} // verus!
