use forkserver::SpawnAttempt;
use forkserver::SpawnDecision;
use forkserver::SpawnRetry;

#[test]
fn spawn_policy_starts_with_ten_retries() {
    let p = SpawnRetry::new();
    assert_eq!(p.retries_left, 10);
}

#[test]
fn spawn_retry_other_error_returns_at_once() {
    let mut p = SpawnRetry::new();
    let before = p;
    let d = p.decide(SpawnAttempt::Failed);
    assert_eq!(d, SpawnDecision::Return);
    assert_eq!(p, before);
}

#[test]
fn spawn_success_returns_at_once() {
    let mut p = SpawnRetry::new();
    assert_eq!(p.decide(SpawnAttempt::Spawned), SpawnDecision::Return);
    assert_eq!(p.retries_left, 10);
}

#[test]
fn spawn_retries_busy_until_it_clears() {
    let mut p = SpawnRetry::new();
    let busy = SpawnAttempt::Busy;
    for left in (0..10).rev() {
        assert_eq!(p.decide(busy), SpawnDecision::RetryAfterDelay);
        assert_eq!(p.retries_left, left);
        if left == 7 {
            break;
        }
    }
    assert_eq!(p.decide(SpawnAttempt::Spawned), SpawnDecision::Return);
}

#[test]
fn spawn_retry_budget_is_ten() {
    let mut p = SpawnRetry::new();
    let busy = SpawnAttempt::Busy;
    let mut delays = 0;
    while p.decide(busy) == SpawnDecision::RetryAfterDelay {
        delays += 1;
        assert!(delays <= 10);
    }
    assert_eq!(delays, 10);
    assert_eq!(p.retries_left, 0);
}

#[test]
fn spawn_missing_executable_is_not_retried() {
    let rt = tokio::runtime::Builder::new_current_thread()
        .enable_all()
        .build()
        .unwrap();
    rt.block_on(async {
        let dir = tempfile::tempdir().unwrap();
        let bin = dir.path().join("bin"); // does not exist
        let err = tokio::process::Command::new(&bin).spawn().unwrap_err();
        assert_eq!(err.raw_os_error(), Some(libc::ENOENT));
        assert_ne!(err.raw_os_error(), Some(libc::ETXTBSY));
        let mut p = SpawnRetry::new();
        assert_eq!(p.decide(SpawnAttempt::Failed), SpawnDecision::Return);
        assert_eq!(p.retries_left, 10);
    });
}

#[test]
fn spawn_busy_after_budget_returns_last_error() {
    let mut p = SpawnRetry { retries_left: 0 };
    assert_eq!(p.decide(SpawnAttempt::Busy), SpawnDecision::Return);
    assert_eq!(p.retries_left, 0);
}
