use dlm::dlm_error::DlmError;
use dlm::retry::{retry_handler, retry_strategy, RetryState};
use std::time::Duration;

#[test]
fn retry_strategy_values() {
    // no jitter for determinism
    let mut s = retry_strategy(10);
    // http://exponentialbackoffcalculator.com/
    assert_eq!(s.next().map(Duration::from_millis), Some(Duration::from_millis(10)));
    assert_eq!(s.next().map(Duration::from_millis), Some(Duration::from_millis(100)));
    assert_eq!(s.next().map(Duration::from_millis), Some(Duration::from_secs(1)));
    assert_eq!(s.next().map(Duration::from_millis), Some(Duration::from_secs(10)));
    assert_eq!(s.next().map(Duration::from_millis), Some(Duration::from_secs(100)));
    assert_eq!(s.next().map(Duration::from_millis), Some(Duration::from_secs(600)));
    assert_eq!(s.next().map(Duration::from_millis), Some(Duration::from_secs(600)));
    assert_eq!(s.next().map(Duration::from_millis), Some(Duration::from_secs(600)));
    assert_eq!(s.next().map(Duration::from_millis), Some(Duration::from_secs(600)));
    assert_eq!(s.next().map(Duration::from_millis), Some(Duration::from_secs(600)));
    assert_eq!(s.next().map(Duration::from_millis), None);
}

fn delays(max_attempts: usize) -> Vec<u64> {
    let mut schedule = retry_strategy(max_attempts);
    let mut delays = Vec::new();
    while let Some(delay) = schedule.next() {
        delays.push(delay);
    }
    assert_eq!(schedule.next(), None);
    delays
}

#[test]
fn retry_strategy_is_bounded_and_never_shrinks() {
    for n in [0usize, 1, 5, 6, 7, 40] {
        let delays = delays(n);
        assert_eq!(delays.len(), n);
        for i in 0..n {
            assert!(delays[i] <= 600_000);
            if i > 0 {
                assert!(delays[i - 1] <= delays[i]);
            }
        }
    }
    assert_eq!(delays(7), vec![10, 100, 1_000, 10_000, 100_000, 600_000, 600_000]);
}

#[test]
fn retry_strategy_of_any_length_costs_nothing_up_front() {
    let mut schedule = retry_strategy(usize::MAX);
    assert_eq!(schedule.next(), Some(10));
}

#[test]
fn network_failures_are_retried() {
    let failures = [
        (DlmError::ConnectionClosed, "connection closed"),
        (DlmError::ConnectionTimeout, "connection timeout"),
        (DlmError::ResponseBodyError, "response body error"),
        (DlmError::DeadLineElapsedTimeout, "deadline elapsed timeout"),
    ];
    for (e, text) in failures {
        assert!(e.is_network_error());
        assert_eq!(
            retry_handler(&e, "https://host/a.txt"),
            Some(format!("Scheduling retry for https://host/a.txt after error {}", text))
        );
    }
}

#[test]
fn other_failures_are_not_retried() {
    let failures = [
        DlmError::EmptyInputFile,
        DlmError::ResponseStatusNotSuccess { status_code: "404 Not Found".to_string() },
        DlmError::UrlDecodeError { message: "bad".to_string() },
        DlmError::StdIoError { e: "disk full".to_string() },
        DlmError::TaskError { e: "cancelled".to_string() },
        DlmError::ChannelError { e: "closed".to_string() },
        DlmError::CliArgumentError { message: "bad".to_string() },
        DlmError::ClapError { e: "bad".to_string() },
        DlmError::ProgramInterrupted,
        DlmError::Other { message: "connection closed".to_string() },
    ];
    for e in failures {
        assert!(!e.is_network_error());
        assert_eq!(retry_handler(&e, "https://host/a.txt"), None);
    }
}

fn backoff(base: u64, factor: u64, ceiling: u64, max_attempts: usize) -> Vec<u64> {
    let mut schedule = RetryState::new(base, factor, ceiling, max_attempts);
    let mut delays = Vec::new();
    while let Some(delay) = schedule.next() {
        delays.push(delay);
    }
    delays
}

#[test]
fn backoff_applies_the_factor() {
    assert_eq!(backoff(2, 1000, 1_000_000, 4), vec![2_000, 4_000, 8_000, 16_000]);
    assert_eq!(backoff(2, 0, 1_000, 3), vec![0, 0, 0]);
}

#[test]
fn backoff_stops_at_the_ceiling() {
    assert_eq!(backoff(2, 1, 4, 4), vec![2, 4, 4, 4]);
    assert_eq!(backoff(20, 1, 10, 2), vec![10, 10]);
    assert_eq!(backoff(3, 2, 50, 5), vec![6, 18, 50, 50, 50]);
    assert_eq!(backoff(7, 3, 0, 2), vec![0, 0]);
}

#[test]
fn backoff_saturates() {
    assert_eq!(
        backoff(u64::MAX - 1, 1, u64::MAX, 3),
        vec![u64::MAX - 1, u64::MAX, u64::MAX]
    );
    assert_eq!(backoff(1 << 40, 1 << 30, u64::MAX, 2), vec![u64::MAX, u64::MAX]);
    assert_eq!(backoff(1 << 40, 1 << 30, 1 << 62, 2), vec![1 << 62, 1 << 62]);
}

#[test]
fn backoff_with_small_bases() {
    assert_eq!(backoff(0, 5, 100, 3), vec![0, 0, 0]);
    assert_eq!(backoff(1, 5, 100, 3), vec![5, 5, 5]);
    assert_eq!(backoff(10, 1, 600_000, 0), Vec::<u64>::new());
}
