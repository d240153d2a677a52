use import_access::error::DownloadError;
use import_access::retry::{backoff_millis, AttemptOutcome, RetryAction, RetryForever};

#[test]
fn transient_failures_then_success() {
    for n in [0u64, 1, 3, 10] {
        let mut driver = RetryForever::new();
        let mut attempts = 0u64;
        let result = loop {
            match driver.on_ready(false) {
                RetryAction::Attempt => {}
                other => break other,
            }
            attempts += 1;
            let outcome = if attempts <= n {
                AttemptOutcome::Failed(DownloadError::Transient)
            } else {
                AttemptOutcome::Succeeded
            };
            match driver.on_outcome(outcome) {
                RetryAction::Backoff { .. } => continue,
                other => break other,
            }
        };
        assert_eq!(result, RetryAction::ReturnSuccess);
        assert_eq!(driver.failure_count(), n);
        assert_eq!(attempts, n + 1);
    }
}

#[test]
fn cancelled_before_first_attempt() {
    let driver = RetryForever::new();
    assert_eq!(driver.on_ready(true), RetryAction::ReturnError(DownloadError::Cancelled));
    assert_eq!(driver.failure_count(), 0);
}

#[test]
fn cancelled_token_stops_driver() {
    let token = tokio_util::sync::CancellationToken::new();
    let driver = RetryForever::new();
    assert_eq!(driver.before_attempt(&token), RetryAction::Attempt);
    token.cancel();
    assert_eq!(driver.before_attempt(&token), RetryAction::ReturnError(DownloadError::Cancelled));
}

#[test]
fn permanent_failures_are_returned_at_once() {
    for e in [DownloadError::NotFound, DownloadError::Decode, DownloadError::Other, DownloadError::Cancelled] {
        let mut driver = RetryForever::new();
        assert_eq!(driver.on_outcome(AttemptOutcome::Failed(e)), RetryAction::ReturnError(e));
        assert_eq!(driver.failure_count(), 0);
    }
}

#[test]
fn timeouts_are_retried() {
    let mut driver = RetryForever::new();
    assert_eq!(
        driver.on_outcome(AttemptOutcome::Failed(DownloadError::Timeout)),
        RetryAction::Backoff { millis: 100 }
    );
    assert_eq!(
        driver.on_outcome(AttemptOutcome::Failed(DownloadError::Transient)),
        RetryAction::Backoff { millis: 200 }
    );
    assert_eq!(driver.failure_count(), 2);
}

#[test]
fn backoff_doubles_up_to_cap() {
    assert_eq!(backoff_millis(0), 0);
    assert_eq!(backoff_millis(1), 100);
    assert_eq!(backoff_millis(2), 200);
    assert_eq!(backoff_millis(3), 400);
    assert_eq!(backoff_millis(5), 1600);
    assert_eq!(backoff_millis(6), 3000);
    assert_eq!(backoff_millis(100), 3000);
}

#[test]
fn permanence_classification() {
    assert!(DownloadError::NotFound.is_permanent());
    assert!(DownloadError::Decode.is_permanent());
    assert!(!DownloadError::Transient.is_permanent());
    assert!(!DownloadError::Timeout.is_permanent());
}
