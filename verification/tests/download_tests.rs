use copper::download::{
    BatchTracker, DownloadFailure, DownloadProgress, RetryDecision, RetryTracker, MAX_ATTEMPTS,
    RETRY_INTERVAL_MS,
};
use copper::errors::DownloadError;

#[test]
fn two_transient_failures_then_success_takes_exactly_three_attempts() {
    let mut tracker = RetryTracker::new();
    assert!(tracker.can_attempt());
    assert_eq!(
        tracker.record_attempt(false),
        RetryDecision::RetryAfterMillis(RETRY_INTERVAL_MS)
    );
    assert!(tracker.can_attempt());
    assert_eq!(
        tracker.record_attempt(false),
        RetryDecision::RetryAfterMillis(RETRY_INTERVAL_MS)
    );
    assert!(tracker.can_attempt());
    assert_eq!(tracker.record_attempt(true), RetryDecision::Done);
    assert_eq!(tracker.attempts, 3);
    assert!(!tracker.can_attempt());
}

#[test]
fn three_failures_exhaust_the_attempt_budget() {
    let mut tracker = RetryTracker::new();
    assert_eq!(
        tracker.record_attempt(false),
        RetryDecision::RetryAfterMillis(100)
    );
    assert_eq!(
        tracker.record_attempt(false),
        RetryDecision::RetryAfterMillis(100)
    );
    assert_eq!(tracker.record_attempt(false), RetryDecision::GiveUp);
    assert_eq!(tracker.attempts, MAX_ATTEMPTS);
    assert!(!tracker.can_attempt());

    let failure = DownloadFailure {
        url: "https://e/a.jar".to_string(),
        cause: DownloadError::RequestError("connection refused".to_string()),
        attempts: tracker.attempts,
    };
    assert_eq!(failure.attempts, 3);
}

#[test]
fn immediate_success_takes_one_attempt() {
    let mut tracker = RetryTracker::new();
    assert_eq!(tracker.record_attempt(true), RetryDecision::Done);
    assert_eq!(tracker.attempts, 1);
}

#[test]
fn progress_counts_successes_and_failures_alike() {
    let mut batch = BatchTracker::new(3);
    assert!(!batch.is_complete());

    let p = batch.record_completion(None);
    assert_eq!(p, DownloadProgress { total_size: 3, finished: 1 });

    let p = batch.record_completion(Some(DownloadFailure {
        url: "https://e/b.jar".to_string(),
        cause: DownloadError::IoError("disk full".to_string()),
        attempts: 3,
    }));
    assert_eq!(p, DownloadProgress { total_size: 3, finished: 2 });

    let p = batch.record_completion(None);
    assert_eq!(p, DownloadProgress { total_size: 3, finished: 3 });
    assert!(batch.is_complete());

    // one permanent failure fails the whole batch, and is reported with its
    // url and cause
    let failures = batch.into_result().unwrap_err();
    assert_eq!(failures.len(), 1);
    assert_eq!(failures[0].url, "https://e/b.jar");
    assert_eq!(
        failures[0].cause,
        DownloadError::IoError("disk full".to_string())
    );
}

#[test]
fn batch_without_failures_succeeds() {
    let mut batch = BatchTracker::new(2);
    batch.record_completion(None);
    batch.record_completion(None);
    assert!(batch.is_complete());
    assert!(batch.into_result().is_ok());
}

#[test]
fn empty_batch_is_complete_and_succeeds() {
    let batch = BatchTracker::new(0);
    assert!(batch.is_complete());
    assert!(batch.into_result().is_ok());
}
