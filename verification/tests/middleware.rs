use armature_grpc::config::GrpcClientConfig;
use armature_grpc::middleware::{
    timed_out_after, ConcurrencyLimitMiddleware, ConcurrencyLimitService, GrpcMiddleware,
    LoadSheddingMiddleware, LoadSheddingService, RateLimitMiddleware, RateLimitService,
    RateWindow, RetryMiddleware, TimeoutMiddleware, TimeoutService,
};
use armature_grpc::status::{Code, Status};
use std::sync::atomic::{AtomicUsize, Ordering};
use std::sync::Arc;
use std::time::{Duration, Instant};
use tokio::sync::Semaphore;

fn block_on<T>(future: impl std::future::Future<Output = T>) -> T {
    tokio::runtime::Builder::new_current_thread()
        .enable_time()
        .build()
        .unwrap()
        .block_on(future)
}

fn done() -> Status {
    Status::new(Code::Success, "done".to_string())
}

/// A service that answers after a delay.
#[derive(Clone)]
struct Echo {
    delay: Option<Duration>,
    in_flight: Arc<AtomicUsize>,
    max_observed_in_flight: Arc<AtomicUsize>,
}

impl Echo {
    fn new(delay: Option<Duration>) -> Self {
        Echo {
            delay,
            in_flight: Arc::new(AtomicUsize::new(0)),
            max_observed_in_flight: Arc::new(AtomicUsize::new(0)),
        }
    }

    async fn call(&self) -> Status {
        let current = self.in_flight.fetch_add(1, Ordering::SeqCst) + 1;
        self.max_observed_in_flight.fetch_max(current, Ordering::SeqCst);
        if let Some(delay) = self.delay {
            tokio::time::sleep(delay).await;
        }
        self.in_flight.fetch_sub(1, Ordering::SeqCst);
        done()
    }
}

async fn call_within(svc: &TimeoutService<Echo>) -> Status {
    match tokio::time::timeout(svc.timeout, svc.inner.call()).await {
        Ok(status) => status,
        Err(_) => svc.timed_out(),
    }
}

#[test]
fn timeout_middleware_times_out_slow_calls() {
    let echo = Echo::new(Some(Duration::from_millis(200)));
    let svc = TimeoutMiddleware::new(Duration::from_millis(20)).wrap(echo);
    let status = block_on(call_within(&svc));
    assert_eq!(status.code(), Code::DeadlineExceeded);
    assert_eq!(status.message(), "request exceeded timeout of 20ms");
}

#[test]
fn timeout_middleware_lets_fast_calls_through() {
    let svc = TimeoutMiddleware::new(Duration::from_secs(5)).wrap(Echo::new(None));
    let status = block_on(call_within(&svc));
    assert_eq!(status.code(), Code::Success);
}

#[test]
fn timeouts_are_told_as_written() {
    assert_eq!(TimeoutMiddleware::new(Duration::from_secs(3)).timeout(), Duration::from_secs(3));
    assert_eq!(timed_out_after("1.5s").message(), "request exceeded timeout of 1.5s");
    let svc = TimeoutMiddleware::new(Duration::from_millis(1500)).wrap(()).clone();
    assert_eq!(svc.timed_out().message(), "request exceeded timeout of 1.5s");
}

async fn call_limited(svc: &ConcurrencyLimitService<Echo>, semaphore: &Semaphore) -> Status {
    let _permit = semaphore.acquire().await.unwrap();
    svc.inner.call().await
}

#[test]
fn concurrency_limit_serializes_calls() {
    let echo = Echo::new(Some(Duration::from_millis(50)));
    let max_observed = echo.max_observed_in_flight.clone();
    let svc = Arc::new(ConcurrencyLimitMiddleware::new(1).wrap(echo));
    let semaphore = Arc::new(Semaphore::new(svc.permits));

    block_on(async {
        let mut calls = Vec::new();
        for _ in 0..2 {
            let (svc, semaphore) = (svc.clone(), semaphore.clone());
            calls.push(tokio::spawn(
                async move { call_limited(&svc, &semaphore).await },
            ));
        }
        for call in calls {
            assert_eq!(call.await.unwrap().code(), Code::Success);
        }
    });

    // With a concurrency limit of 1, the two overlapping calls must have
    // been serialized: at most 1 was ever in flight simultaneously.
    assert_eq!(max_observed.load(Ordering::SeqCst), 1);
}

#[test]
fn limits_are_at_least_one() {
    assert_eq!(ConcurrencyLimitMiddleware::new(0).limit(), 0);
    assert_eq!(ConcurrencyLimitMiddleware::new(0).wrap(()).permits, 1);
    assert_eq!(ConcurrencyLimitMiddleware::new(9).wrap(()).clone().permits, 9);
    assert_eq!(LoadSheddingMiddleware::new().max_concurrent(0).wrap(()).permits, 1);
    assert_eq!(LoadSheddingMiddleware::default().wrap(()).clone().permits, 64);
}

fn try_call(svc: &LoadSheddingService<()>, semaphore: &Semaphore) -> Result<(), Status> {
    match semaphore.try_acquire() {
        Ok(permit) => {
            let decision = svc.on_request(true);
            permit.forget();
            decision
        }
        Err(_) => svc.on_request(false),
    }
}

#[test]
fn load_shedding_rejects_over_threshold() {
    let svc = LoadSheddingMiddleware::new().max_concurrent(1).wrap(());
    let semaphore = Semaphore::new(svc.permits);
    assert!(try_call(&svc, &semaphore).is_ok());
    let rejected_status = try_call(&svc, &semaphore).unwrap_err();
    assert_eq!(rejected_status.code(), Code::Unavailable);
    assert_eq!(
        rejected_status.message(),
        "server overloaded: load shedding is rejecting new requests"
    );
    semaphore.add_permits(1);
    assert!(try_call(&svc, &semaphore).is_ok());
}

#[test]
fn load_shedding_disabled_does_not_reject() {
    let svc = LoadSheddingMiddleware::new()
        .enabled(false)
        .max_concurrent(1)
        .wrap(());
    assert!(svc.on_request(false).is_ok());
    assert!(svc.on_request(true).is_ok());
}

fn call_counted(svc: &mut RateLimitService<()>) -> Status {
    match svc.on_request() {
        Ok(()) => done(),
        Err(status) => status,
    }
}

#[test]
fn rate_limit_rejects_burst_over_configured_rps() {
    let mut svc = RateLimitMiddleware::new(1).wrap(());
    assert_eq!(call_counted(&mut svc).code(), Code::Success);
    let second_status = call_counted(&mut svc);
    assert_eq!(second_status.code(), Code::ResourceExhausted);
    assert_eq!(second_status.message(), "rate limit exceeded");
}

#[test]
fn a_service_counts_the_requests_that_it_rejects() {
    let mut svc = RateLimitMiddleware::new(2).wrap(7);
    let answers: Vec<bool> = (0..3).map(|_| svc.on_request().is_ok()).collect();
    assert_eq!(answers, [true, true, false]);
    assert_eq!((svc.inner, svc.requests_per_second, svc.window.count), (7, 2, 3));
}

#[test]
fn requests_are_decided_on_by_the_instant() {
    let mut svc = RateLimitMiddleware::new(2).wrap(());
    let start = svc.window.start;
    let at = |nanos: u64| start + Duration::from_nanos(nanos);
    assert!(svc.on_request_at(at(0)).is_ok());
    assert!(svc.on_request_at(at(1)).is_ok());
    assert!(svc.on_request_at(at(999_999_999)).is_err());
    assert_eq!((svc.window.start, svc.window.count), (start, 3));
    assert!(svc.on_request_at(at(1_000_000_000)).is_ok());
    assert_eq!((svc.window.start, svc.window.count), (at(1_000_000_000), 1));
    // An instant before the window's start is within it.
    assert!(svc.on_request_at(start).is_ok());
    assert_eq!((svc.window.start, svc.window.count), (at(1_000_000_000), 2));
}

#[test]
fn a_window_that_is_over_starts_anew() {
    let mut svc = RateLimitMiddleware::new(1).wrap(());
    let start = svc.window.start;
    svc.window.count = u64::MAX;
    assert!(svc.try_on_request().is_none());
    assert_eq!((svc.window.start, svc.window.count), (start, u64::MAX));

    let long_ago = start.checked_sub(Duration::from_secs(1)).unwrap();
    svc.window.start = long_ago;
    assert!(svc.try_on_request().unwrap().is_ok());
    assert_eq!(svc.window.count, 1);
    assert!(svc.window.start >= long_ago + Duration::from_secs(1));
    assert!(svc.on_request().is_err());
}

#[test]
fn a_window_lets_the_rate_through_and_starts_anew() {
    assert_eq!(RateLimitMiddleware::new(3).rps(), 3);
    let start = Instant::now();
    let mut window = RateWindow { start, count: 0 };
    let soon = Duration::from_nanos(999_999_999);
    let now = start + Duration::from_secs(1);
    let first: Vec<bool> = (0..5).map(|_| window.count_request_at(soon, now, 3)).collect();
    assert_eq!(first, [true, true, true, false, false]);
    assert_eq!((window.start, window.count), (start, 5));

    assert!(window.count_request_at(Duration::from_secs(1), now, 3));
    assert_eq!((window.start, window.count), (now, 1));

    // A rate of none lets one through all the same.
    let mut window = RateWindow::new();
    assert!(window.count_request_at(soon, now, 0));
    assert!(!window.count_request_at(soon, now, 0));
}

/// Calls until the policy gives up.
fn call_with_retry<T>(
    retry: &RetryMiddleware,
    mut make_call: impl FnMut() -> Result<T, Status>,
) -> Result<T, Status> {
    let mut run = retry.first_attempt();
    loop {
        match make_call() {
            Ok(value) => return Ok(value),
            Err(status) => {
                if !retry.next_attempt(&mut run, status.code()) {
                    return Err(status);
                }
            }
        }
    }
}

#[test]
fn retry_middleware_eventually_succeeds() {
    let mut attempts = 0;
    let retry = RetryMiddleware::new(5);

    let result: Result<&'static str, Status> = call_with_retry(&retry, || {
        let n = attempts;
        attempts += 1;
        if n < 2 {
            Err(Status::new(Code::Unavailable, "temporary".to_string()))
        } else {
            Ok("ok")
        }
    });

    assert_eq!(result.unwrap(), "ok");
    assert_eq!(attempts, 3);
}

#[test]
fn retry_middleware_gives_up_after_max_attempts() {
    let mut attempts = 0;
    let retry = RetryMiddleware::new(2);

    let result: Result<&'static str, Status> = call_with_retry(&retry, || {
        attempts += 1;
        Err(Status::new(Code::Unavailable, "still down".to_string()))
    });

    assert!(result.is_err());
    assert_eq!(attempts, 2);
}

#[test]
fn retry_middleware_does_not_retry_non_retriable_status() {
    let mut attempts = 0;
    let retry = RetryMiddleware::new(5);

    let result: Result<&'static str, Status> = call_with_retry(&retry, || {
        attempts += 1;
        Err(Status::new(Code::InvalidArgument, "bad request".to_string()))
    });

    assert!(result.is_err());
    assert_eq!(attempts, 1);
}

/// A server that fails the first `fail_first_n` requests, called as a client
/// with this configuration calls it.
fn call_flaky(config: &GrpcClientConfig, fail_first_n: usize) -> Result<(), Status> {
    let mut attempts = 0;
    let mut check = || {
        attempts += 1;
        if attempts <= fail_first_n {
            Err(Status::new(
                Code::Unavailable,
                "temporarily unavailable".to_string(),
            ))
        } else {
            Ok(())
        }
    };
    match config.retry_policy() {
        Some(retry) => call_with_retry(&retry, check),
        None => check(),
    }
}

#[test]
fn client_with_retry_enabled_recovers_from_transient_failures() {
    let config = GrpcClientConfig::builder()
        .retry(true)
        .max_retry_attempts(5)
        .build();
    assert!(
        call_flaky(&config, 2).is_ok(),
        "retrying client should eventually succeed"
    );
}

#[test]
fn client_without_retry_fails_on_first_transient_failure() {
    let config = GrpcClientConfig::builder().retry(false).build();
    assert!(
        call_flaky(&config, 2).is_err(),
        "non-retrying client should fail on the first transient error"
    );
}

#[test]
fn retry_codes_decide() {
    let retry = RetryMiddleware::new(0);
    assert_eq!(retry.max_attempts(), 0);
    for code in [
        Code::Unavailable,
        Code::ResourceExhausted,
        Code::Aborted,
        Code::DeadlineExceeded,
    ] {
        assert!(retry.should_retry(code));
    }
    assert!(!retry.should_retry(Code::Internal));
    assert!(!retry.should_retry(Code::Success));
    // No attempts at all still means one.
    let mut run = retry.first_attempt();
    assert!(!retry.next_attempt(&mut run, Code::Unavailable));

    let retry = RetryMiddleware::new(2).with_retry_codes(vec![Code::Internal]).clone();
    assert!(retry.should_retry(Code::Internal));
    assert!(!retry.should_retry(Code::Unavailable));
    let mut run = retry.first_attempt();
    assert!(retry.next_attempt(&mut run, Code::Internal));
    assert_eq!(run.attempts, 2);
    assert!(!retry.next_attempt(&mut run, Code::Internal));
    assert_eq!(run.attempts, 2);
}
