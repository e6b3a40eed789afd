//! Middleware for services: timeouts, limits and retries.

use crate::status::{Code, Status, StatusView};
use crate::time::{
    debug_text, duration_text, instant_now, is_clock_reading, lemma_is_clock_reading, nanos, ticks,
    time_between,
};
use std::time::{Duration, Instant};
use vstd::prelude::*;

verus! {

/// Wraps services with one of the middleware types.
pub trait GrpcMiddleware<S> {
    /// The wrapped service type.
    type Service;

    /// Wrap the service with this middleware.
    fn wrap(self, service: S) -> Self::Service;
}

/// Timeout middleware. Bounds how long a request of the wrapped service takes.
#[derive(Debug, Clone, Copy)]
pub struct TimeoutMiddleware {
    /// The bound.
    pub timeout: Duration,
}

impl TimeoutMiddleware {
    /// Create a new timeout middleware.
    pub fn new(timeout: Duration) -> (r: Self)
        ensures
            r.timeout == timeout,
    {
        TimeoutMiddleware { timeout }
    }

    /// Get the timeout duration.
    pub fn timeout(&self) -> (r: Duration)
        ensures
            r == self.timeout,
    {
        self.timeout
    }
}

impl<S> GrpcMiddleware<S> for TimeoutMiddleware {
    type Service = TimeoutService<S>;

    fn wrap(self, service: S) -> (r: TimeoutService<S>)
        ensures
            r == (TimeoutService { inner: service, timeout: self.timeout }),
    {
        TimeoutService { inner: service, timeout: self.timeout }
    }
}

/// Service produced by [`TimeoutMiddleware`].
#[derive(Debug)]
pub struct TimeoutService<S> {
    /// The wrapped service.
    pub inner: S,
    /// How long a request may take.
    pub timeout: Duration,
}

impl<S: Clone> Clone for TimeoutService<S> {
    fn clone(&self) -> (r: Self)
        ensures
            cloned(self.inner, r.inner),
            r.timeout == self.timeout,
    {
        TimeoutService { inner: self.inner.clone(), timeout: self.timeout }
    }
}

impl<S> TimeoutService<S> {
    /// The answer to a request that took too long.
    pub fn timed_out(&self) -> (r: Status)
        ensures
            r@ == StatusView::plain(
                Code::DeadlineExceeded,
                "request exceeded timeout of "@ + debug_text(nanos(self.timeout)),
            ),
    {
        let text = duration_text(self.timeout);
        timed_out_after(text.as_str())
    }
}

/// The answer to a request that took longer than a time that is written as
/// `timeout`.
pub fn timed_out_after(timeout: &str) -> (r: Status)
    ensures
        r@ == StatusView::plain(
            Code::DeadlineExceeded,
            "request exceeded timeout of "@ + timeout@,
        ),
{
    let mut message = String::new();
    message.append("request exceeded timeout of ");
    message.append(timeout);
    assert(message@ =~= "request exceeded timeout of "@ + timeout@);
    Status::new(Code::DeadlineExceeded, message)
}

/// The number, and one in place of zero.
pub open spec fn at_least_one(n: int) -> int {
    if n == 0 {
        1
    } else {
        n
    }
}

/// Concurrency limit middleware. Caps how many requests are in flight; the
/// others wait.
#[derive(Debug, Clone, Copy)]
pub struct ConcurrencyLimitMiddleware {
    /// The cap.
    pub max_concurrent: usize,
}

impl ConcurrencyLimitMiddleware {
    /// Create a new concurrency limit middleware.
    pub fn new(max_concurrent: usize) -> (r: Self)
        ensures
            r.max_concurrent == max_concurrent,
    {
        ConcurrencyLimitMiddleware { max_concurrent }
    }

    /// Get the concurrency limit.
    pub fn limit(&self) -> (r: usize)
        ensures
            r == self.max_concurrent,
    {
        self.max_concurrent
    }
}

impl<S> GrpcMiddleware<S> for ConcurrencyLimitMiddleware {
    type Service = ConcurrencyLimitService<S>;

    fn wrap(self, service: S) -> (r: ConcurrencyLimitService<S>)
        ensures
            r.inner == service,
            r.permits == at_least_one(self.max_concurrent as int),
    {
        ConcurrencyLimitService { inner: service, permits: permits_for(self.max_concurrent) }
    }
}

fn permits_for(max_concurrent: usize) -> (r: usize)
    ensures
        r == at_least_one(max_concurrent as int),
{
    if max_concurrent == 0 {
        1
    } else {
        max_concurrent
    }
}

/// Service produced by [`ConcurrencyLimitMiddleware`].
#[derive(Debug)]
pub struct ConcurrencyLimitService<S> {
    /// The wrapped service.
    pub inner: S,
    /// How many requests may be in flight.
    pub permits: usize,
}

impl<S: Clone> Clone for ConcurrencyLimitService<S> {
    fn clone(&self) -> (r: Self)
        ensures
            cloned(self.inner, r.inner),
            r.permits == self.permits,
    {
        ConcurrencyLimitService { inner: self.inner.clone(), permits: self.permits }
    }
}

/// Load shedding middleware that rejects new requests while too many are in
/// flight.
#[derive(Debug, Clone, Copy)]
pub struct LoadSheddingMiddleware {
    /// Whether requests are rejected at all.
    pub enabled: bool,
    /// How many requests may be in flight.
    pub max_concurrent: usize,
}

impl LoadSheddingMiddleware {
    /// Create a new load shedding middleware for 64 requests in flight.
    pub fn new() -> (r: Self)
        ensures
            r == (LoadSheddingMiddleware { enabled: true, max_concurrent: 64 }),
    {
        LoadSheddingMiddleware { enabled: true, max_concurrent: 64 }
    }

    /// Enable or disable load shedding.
    pub fn enabled(self, enabled: bool) -> (r: Self)
        ensures
            r == (LoadSheddingMiddleware { enabled, ..self }),
    {
        LoadSheddingMiddleware { enabled, ..self }
    }

    /// Set how many requests may be in flight before new ones are rejected.
    pub fn max_concurrent(self, max_concurrent: usize) -> (r: Self)
        ensures
            r == (LoadSheddingMiddleware { max_concurrent, ..self }),
    {
        LoadSheddingMiddleware { max_concurrent, ..self }
    }
}

impl Default for LoadSheddingMiddleware {
    fn default() -> (r: Self)
        ensures
            r == (LoadSheddingMiddleware { enabled: true, max_concurrent: 64 }),
    {
        LoadSheddingMiddleware::new()
    }
}

impl<S> GrpcMiddleware<S> for LoadSheddingMiddleware {
    type Service = LoadSheddingService<S>;

    fn wrap(self, service: S) -> (r: LoadSheddingService<S>)
        ensures
            r.inner == service,
            r.permits == at_least_one(self.max_concurrent as int),
            r.enabled == self.enabled,
    {
        LoadSheddingService {
            inner: service,
            permits: permits_for(self.max_concurrent),
            enabled: self.enabled,
        }
    }
}

/// Service produced by [`LoadSheddingMiddleware`].
#[derive(Debug)]
pub struct LoadSheddingService<S> {
    /// The wrapped service.
    pub inner: S,
    /// How many requests may be in flight.
    pub permits: usize,
    /// Whether requests are rejected at all.
    pub enabled: bool,
}

impl<S: Clone> Clone for LoadSheddingService<S> {
    fn clone(&self) -> (r: Self)
        ensures
            cloned(self.inner, r.inner),
            r.permits == self.permits,
            r.enabled == self.enabled,
    {
        LoadSheddingService {
            inner: self.inner.clone(),
            permits: self.permits,
            enabled: self.enabled,
        }
    }
}

impl<S> LoadSheddingService<S> {
    /// Decides on a request, given whether one of the permits was free for it:
    /// it is let through, or rejected with a status.
    pub fn on_request(&self, permit_free: bool) -> (r: Result<(), Status>)
        ensures
            r is Ok == (!self.enabled || permit_free),
            r matches Err(s) ==> s@ == StatusView::plain(
                Code::Unavailable,
                "server overloaded: load shedding is rejecting new requests"@,
            ),
    {
        if !self.enabled || permit_free {
            Ok(())
        } else {
            Err(
                Status::new(
                    Code::Unavailable,
                    String::from("server overloaded: load shedding is rejecting new requests"),
                ),
            )
        }
    }
}

/// Rate limiting middleware. Rejects requests over a rate per second.
#[derive(Debug, Clone, Copy)]
pub struct RateLimitMiddleware {
    /// The rate.
    pub requests_per_second: u64,
}

impl RateLimitMiddleware {
    /// Create a new rate limit middleware.
    pub fn new(requests_per_second: u64) -> (r: Self)
        ensures
            r.requests_per_second == requests_per_second,
    {
        RateLimitMiddleware { requests_per_second }
    }

    /// Get the rate limit.
    pub fn rps(&self) -> (r: u64)
        ensures
            r == self.requests_per_second,
    {
        self.requests_per_second
    }
}

impl<S> GrpcMiddleware<S> for RateLimitMiddleware {
    type Service = RateLimitService<S>;

    fn wrap(self, service: S) -> (r: RateLimitService<S>)
        ensures
            r.inner == service,
            r.requests_per_second == self.requests_per_second,
            r.window.count == 0,
            is_clock_reading(r.window.start),
    {
        RateLimitService {
            inner: service,
            requests_per_second: self.requests_per_second,
            window: RateWindow::new(),
        }
    }
}

/// A window of one second, and how many requests it has seen.
#[derive(Debug, Clone, Copy)]
pub struct RateWindow {
    /// When the window started.
    pub start: Instant,
    /// How many requests it has seen.
    pub count: u64,
}

/// Whether a window that started so many nanoseconds ago is over.
pub open spec fn is_over(elapsed: u128) -> bool {
    elapsed >= 1_000_000_000
}

/// How many requests a window has seen once one more came, in the same window
/// or as the first of a new one.
pub open spec fn count_after(count: int, elapsed: u128) -> int {
    if is_over(elapsed) {
        1
    } else {
        count + 1
    }
}

/// Whether `after` is a window that one more request can have left behind in
/// place of `before`: the same one, which has seen one more, or a new one that
/// has seen one and started once the other was over.
pub open spec fn is_next(before: RateWindow, after: RateWindow) -> bool {
    ||| after.count == 1 && ticks(after.start) >= ticks(before.start) + 1_000_000_000
    ||| after.count == before.count + 1 && after.start == before.start
}

impl RateWindow {
    /// Whether the window is over at an instant: a second or more has passed
    /// since it started.
    pub open spec fn is_over_at(self, now: Instant) -> bool {
        ticks(now) >= ticks(self.start) + 1_000_000_000
    }

    /// The window once a request came at an instant: a new one where this one is
    /// over, which starts at that instant with the request as its first.
    pub open spec fn counted_at(self, now: Instant) -> RateWindow {
        if self.is_over_at(now) {
            RateWindow { start: now, count: 1 }
        } else {
            RateWindow { start: self.start, count: (self.count + 1) as u64 }
        }
    }

    /// A window that starts now.
    pub fn new() -> (r: RateWindow)
        ensures
            r.count == 0,
            is_clock_reading(r.start),
    {
        let start = instant_now();
        proof {
            lemma_is_clock_reading(start);
        }
        RateWindow { start, count: 0 }
    }

    /// Counts a request that came so long after the start of the window, at
    /// `now`, and decides on it.
    pub fn count_request_at(&mut self, elapsed: Duration, now: Instant, requests_per_second: u64) -> (r:
        bool)
        requires
            is_over(nanos(elapsed)) || old(self).count < u64::MAX,
        ensures
            final(self).count == count_after(old(self).count as int, nanos(elapsed)),
            final(self).start == (if is_over(nanos(elapsed)) {
                now
            } else {
                old(self).start
            }),
            r == (final(self).count <= at_least_one(requests_per_second as int)),
    {
        if elapsed.as_nanos() >= 1_000_000_000 {
            self.start = now;
            self.count = 0;
        }
        self.count = self.count + 1;
        let limit: u64 = if requests_per_second == 0 {
            1
        } else {
            requests_per_second
        };
        self.count <= limit
    }
}

/// Service produced by [`RateLimitMiddleware`].
#[derive(Debug)]
pub struct RateLimitService<S> {
    /// The wrapped service.
    pub inner: S,
    /// The rate.
    pub requests_per_second: u64,
    /// The window that is under way.
    pub window: RateWindow,
}

impl<S> RateLimitService<S> {
    /// Counts a request that comes at `now`, and decides on it: it is let
    /// through, or rejected with a status.
    pub fn on_request_at(&mut self, now: Instant) -> (r: Result<(), Status>)
        requires
            old(self).window.is_over_at(now) || old(self).window.count < u64::MAX,
        ensures
            final(self).inner == old(self).inner,
            final(self).requests_per_second == old(self).requests_per_second,
            final(self).window == old(self).window.counted_at(now),
            r is Ok == (final(self).window.count <= at_least_one(
                old(self).requests_per_second as int,
            )),
            r matches Err(s) ==> s@ == StatusView::plain(
                Code::ResourceExhausted,
                "rate limit exceeded"@,
            ),
    {
        let elapsed = time_between(self.window.start, now);
        if self.window.count_request_at(elapsed, now, self.requests_per_second) {
            Ok(())
        } else {
            Err(rate_limited())
        }
    }

    /// Counts a request that comes now, by the monotonic clock, and decides on
    /// it as `on_request_at` does.
    pub fn on_request(&mut self) -> (r: Result<(), Status>)
        requires
            old(self).window.count < u64::MAX,
        ensures
            final(self).inner == old(self).inner,
            final(self).requests_per_second == old(self).requests_per_second,
            exists|now: Instant|
                is_clock_reading(now) && final(self).window == #[trigger] old(self).window.counted_at(now),
            is_next(old(self).window, final(self).window),
            r is Ok == (final(self).window.count <= at_least_one(
                old(self).requests_per_second as int,
            )),
            r matches Err(s) ==> s@ == StatusView::plain(
                Code::ResourceExhausted,
                "rate limit exceeded"@,
            ),
    {
        self.try_on_request().unwrap()
    }

    /// Decides on a request as `on_request` does. Gives `None` where the window
    /// is not over and can count no further.
    pub fn try_on_request(&mut self) -> (r: Option<Result<(), Status>>)
        ensures
            final(self).inner == old(self).inner,
            final(self).requests_per_second == old(self).requests_per_second,
            match r {
                Some(answer) => {
                    &&& exists|now: Instant|
                        is_clock_reading(now) && final(self).window == #[trigger] old(self).window.counted_at(now)
                    &&& is_next(old(self).window, final(self).window)
                    &&& answer is Ok == (final(self).window.count <= at_least_one(
                        old(self).requests_per_second as int,
                    ))
                    &&& answer matches Err(s) ==> s@ == StatusView::plain(
                        Code::ResourceExhausted,
                        "rate limit exceeded"@,
                    )
                },
                None => old(self).window.count == u64::MAX && final(self).window == old(self).window,
            },
    {
        let now = instant_now();
        proof {
            lemma_is_clock_reading(now);
        }
        let elapsed = time_between(self.window.start, now);
        if elapsed.as_nanos() < 1_000_000_000 && self.window.count == u64::MAX {
            return None;
        }
        let ghost before = self.window;
        let answer = self.on_request_at(now);
        proof {
            lemma_counted_is_next(before, now);
        }
        Some(answer)
    }
}

/// The answer to a request over the rate.
pub fn rate_limited() -> (r: Status)
    ensures
        r@ == StatusView::plain(Code::ResourceExhausted, "rate limit exceeded"@),
{
    Status::new(Code::ResourceExhausted, String::from("rate limit exceeded"))
}

/// A request leaves the same window behind, which has seen one more, or a new
/// one that has seen one and started once the other was over.
pub proof fn lemma_counted_is_next(window: RateWindow, now: Instant)
    requires
        window.is_over_at(now) || window.count < u64::MAX,
    ensures
        is_next(window, window.counted_at(now)),
{
}

/// Windows that requests leave behind one after another start at least a second
/// apart, and one that stays the same counts every request. So of the requests
/// in one window just the first ones are let through, as many as the rate
/// allows, and at least one.
pub proof fn lemma_window_counts_requests(
    windows: Seq<RateWindow>,
    i: int,
    j: int,
    requests_per_second: u64,
)
    requires
        forall|k: int|
            0 <= k < windows.len() - 1 ==> #[trigger] is_next(windows[k], windows[k + 1]),
        0 <= i <= j < windows.len(),
    ensures
        ticks(windows[j].start) == ticks(windows[i].start) || ticks(windows[j].start) >= ticks(
            windows[i].start,
        ) + 1_000_000_000,
        ticks(windows[j].start) == ticks(windows[i].start) ==> windows[j].count
            == windows[i].count + (j - i),
        ticks(windows[j].start) == ticks(windows[i].start) ==> (windows[j].count <= at_least_one(
            requests_per_second as int,
        ) <==> windows[i].count + (j - i) <= at_least_one(requests_per_second as int)),
    decreases j - i,
{
    if i < j {
        assert(is_next(windows[i], windows[i + 1]));
        lemma_window_counts_requests(windows, i + 1, j, requests_per_second);
    }
}

/// What becomes of requests that come one after another, each so long after
/// the start of the window that it finds.
pub open spec fn admissions(count: int, elapsed: Seq<u128>, requests_per_second: u64) -> Seq<bool>
    decreases elapsed.len(),
{
    if elapsed.len() == 0 {
        Seq::empty()
    } else {
        let n = count_after(count, elapsed[0]);
        seq![n <= at_least_one(requests_per_second as int)] + admissions(
            n,
            elapsed.drop_first(),
            requests_per_second,
        )
    }
}

/// Of the requests in one window just the first ones are let through, as many
/// as the rate allows, and at least one.
pub proof fn lemma_window_admits_rate(count: int, elapsed: Seq<u128>, requests_per_second: u64)
    requires
        count >= 0,
        forall|i: int| 0 <= i < elapsed.len() ==> !is_over(#[trigger] elapsed[i]),
    ensures
        admissions(count, elapsed, requests_per_second).len() == elapsed.len(),
        forall|i: int|
            0 <= i < elapsed.len() ==> #[trigger] admissions(
                count,
                elapsed,
                requests_per_second,
            )[i] == (count + i + 1 <= at_least_one(requests_per_second as int)),
    decreases elapsed.len(),
{
    if elapsed.len() > 0 {
        let rest = elapsed.drop_first();
        assert forall|i: int| 0 <= i < rest.len() implies !is_over(#[trigger] rest[i]) by {
            assert(rest[i] == elapsed[i + 1]);
        }
        lemma_window_admits_rate(count + 1, rest, requests_per_second);
        let all = admissions(count, elapsed, requests_per_second);
        let later = admissions(count + 1, rest, requests_per_second);
        assert forall|i: int| 0 <= i < elapsed.len() implies #[trigger] all[i] == (count + i + 1
            <= at_least_one(requests_per_second as int)) by {
            if i > 0 {
                assert(all[i] == later[i - 1]);
            }
        }
    }
}

/// A request that finds its window over is let through, whatever the rate.
pub proof fn lemma_new_window_admits(count: int, elapsed: Seq<u128>, requests_per_second: u64)
    requires
        elapsed.len() > 0,
        is_over(elapsed[0]),
    ensures
        admissions(count, elapsed, requests_per_second)[0],
{
}

/// Retry middleware, for the client side: which failures are tried again, and
/// how often.
#[derive(Debug)]
pub struct RetryMiddleware {
    /// How many attempts are made at most, the first one included.
    pub max_attempts: u32,
    /// The codes of failures that are tried again.
    pub retry_codes: Vec<Code>,
}

impl Clone for RetryMiddleware {
    fn clone(&self) -> (r: Self)
        ensures
            r.max_attempts == self.max_attempts,
            r.retry_codes@ == self.retry_codes@,
    {
        let retry_codes = self.retry_codes.clone();
        assert(retry_codes@ =~= self.retry_codes@);
        RetryMiddleware { max_attempts: self.max_attempts, retry_codes }
    }
}

/// The codes of failures that are tried again where nothing else was set.
pub open spec fn default_retry_codes() -> Seq<Code> {
    seq![Code::Unavailable, Code::ResourceExhausted, Code::Aborted, Code::DeadlineExceeded]
}

impl RetryMiddleware {
    /// Create a new retry middleware. `max_attempts` counts the first attempt,
    /// so that one means no retries.
    pub fn new(max_attempts: u32) -> (r: Self)
        ensures
            r.max_attempts == max_attempts,
            r.retry_codes@ == default_retry_codes(),
    {
        let retry_codes = vec![
            Code::Unavailable,
            Code::ResourceExhausted,
            Code::Aborted,
            Code::DeadlineExceeded,
        ];
        assert(retry_codes@ =~= default_retry_codes());
        RetryMiddleware { max_attempts, retry_codes }
    }

    /// Set the codes that should trigger a retry.
    pub fn with_retry_codes(self, codes: Vec<Code>) -> (r: Self)
        ensures
            r == (RetryMiddleware { retry_codes: codes, ..self }),
    {
        RetryMiddleware { max_attempts: self.max_attempts, retry_codes: codes }
    }

    /// Get the maximum number of attempts.
    pub fn max_attempts(&self) -> (r: u32)
        ensures
            r == self.max_attempts,
    {
        self.max_attempts
    }

    /// Check if a code should trigger a retry.
    pub fn should_retry(&self, code: Code) -> (r: bool)
        ensures
            r == self.retry_codes@.contains(code),
    {
        let mut i: usize = 0;
        while i < self.retry_codes.len()
            invariant
                i <= self.retry_codes@.len(),
                forall|k: int| 0 <= k < i ==> self.retry_codes@[k] != code,
            decreases self.retry_codes@.len() - i,
        {
            if self.retry_codes[i] == code {
                return true;
            }
            i = i + 1;
        }
        false
    }

    /// Whether another attempt is made after so many, the last of which failed
    /// with a code.
    pub open spec fn tries_again(self, attempts: int, code: Code) -> bool {
        attempts < at_least_one(self.max_attempts as int) && self.retry_codes@.contains(code)
    }

    /// The first attempt.
    pub fn first_attempt(&self) -> (r: RetryRun)
        ensures
            r.attempts == 1,
    {
        RetryRun { attempts: 1 }
    }

    /// Decides whether another attempt is made after the one under way failed
    /// with a code, and counts it.
    pub fn next_attempt(&self, run: &mut RetryRun, code: Code) -> (r: bool)
        ensures
            r == self.tries_again(old(run).attempts as int, code),
            final(run).attempts == old(run).attempts + (if r {
                1int
            } else {
                0
            }),
    {
        let max_attempts: u32 = if self.max_attempts == 0 {
            1
        } else {
            self.max_attempts
        };
        if run.attempts < max_attempts && self.should_retry(code) {
            run.attempts = run.attempts + 1;
            true
        } else {
            false
        }
    }
}

/// How many attempts a call has made, the one under way included.
#[derive(Debug, Clone, Copy, PartialEq, Eq, Structural)]
pub struct RetryRun {
    /// The number of attempts.
    pub attempts: u32,
}

/// How many attempts are made in all once `attempt` is under way, where each
/// attempt would have the outcome given: `None` for success, or the code of a
/// failure.
pub open spec fn attempts_made(
    retry: RetryMiddleware,
    outcomes: spec_fn(int) -> Option<Code>,
    attempt: int,
) -> int
    decreases at_least_one(retry.max_attempts as int) - attempt,
{
    match outcomes(attempt) {
        None => attempt,
        Some(code) => if retry.tries_again(attempt, code) {
            attempts_made(retry, outcomes, attempt + 1)
        } else {
            attempt
        },
    }
}

/// At least one attempt is made, and no more than were asked for. Every one but
/// the last failed with a code that is tried again. The last one succeeded, or
/// failed with a code that is not tried again, or was the last allowed.
pub proof fn lemma_attempts(
    retry: RetryMiddleware,
    outcomes: spec_fn(int) -> Option<Code>,
    attempt: int,
)
    requires
        1 <= attempt <= at_least_one(retry.max_attempts as int),
    ensures
        attempt <= attempts_made(retry, outcomes, attempt) <= at_least_one(
            retry.max_attempts as int,
        ),
        forall|i: int|
            attempt <= i < attempts_made(retry, outcomes, attempt) ==> (#[trigger] outcomes(
                i,
            ) matches Some(code) && retry.retry_codes@.contains(code)),
        ({
            let last = attempts_made(retry, outcomes, attempt);
            ||| outcomes(last) is None
            ||| !retry.retry_codes@.contains(outcomes(last)->0)
            ||| last == at_least_one(retry.max_attempts as int)
        }),
    decreases at_least_one(retry.max_attempts as int) - attempt,
{
    if let Some(code) = outcomes(attempt) {
        if retry.tries_again(attempt, code) {
            lemma_attempts(retry, outcomes, attempt + 1);
        }
    }
}

/// A request that comes a second or more after its window started opens a new
/// one, which starts with it, and is let through, whatever the rate and however
/// many came before. One that comes earlier is counted in the window, and is let
/// through as long as the count is within the rate, or is the first.
pub proof fn lemma_request_at_an_instant<S>(
    service: &mut RateLimitService<S>,
    now: Instant,
    r: Result<(), Status>,
)
    requires
        call_ensures(RateLimitService::<S>::on_request_at, (service, now), r),
        service.window.count < u64::MAX,
    ensures
        ticks(now) - ticks(old(service).window.start) >= 1_000_000_000 ==> r is Ok && final(service).window.start == now && final(service).window.count == 1,
        ticks(now) - ticks(old(service).window.start) < 1_000_000_000 ==> final(service).window.start == old(service).window.start && final(service).window.count == old(service).window.count + 1 && (r is Ok <==> old(service).window.count == 0 || old(service).window.count < old(service).requests_per_second),
        r matches Err(s) ==> s@.code == Code::ResourceExhausted,
        final(service).inner == old(service).inner,
        final(service).requests_per_second == old(service).requests_per_second,
{
}

/// What decides on a request is what the monotonic clock shows during the call.
/// Where that is a second or more after the window started, the request opens a
/// new window and is let through; where it is less, it is counted in the window.
pub proof fn lemma_clock_decides<S>(service: &mut RateLimitService<S>, r: Result<(), Status>)
    requires
        call_ensures(RateLimitService::<S>::on_request, (service,), r),
        service.window.count < u64::MAX,
    ensures
        exists|now: Instant|
            #![trigger ticks(now)]
            is_clock_reading(now) && (ticks(now) - ticks(old(service).window.start)
                >= 1_000_000_000 ==> r is Ok && final(service).window.start == now && final(service).window.count == 1) && (ticks(now) - ticks(old(service).window.start) < 1_000_000_000
                ==> final(service).window.start == old(service).window.start && final(service).window.count == old(service).window.count + 1 && (r is Ok <==> old(service).window.count == 0 || old(service).window.count < old(service).requests_per_second)),
        r matches Err(s) ==> s@.code == Code::ResourceExhausted,
{
    let before = service.window;
    let now = choose|now: Instant|
        is_clock_reading(now) && final(service).window == #[trigger] before.counted_at(now);
    assert(ticks(now) == ticks(now));
}

/// A request is decided on without a bound on what was counted as it is with
/// one, unless the window is full.
pub proof fn lemma_clock_decides_unless_full<S>(
    service: &mut RateLimitService<S>,
    r: Option<Result<(), Status>>,
)
    requires
        call_ensures(RateLimitService::<S>::try_on_request, (service,), r),
    ensures
        old(service).window.count < u64::MAX ==> r is Some,
        r is None ==> final(service).window == old(service).window,
        r matches Some(answer) ==> exists|now: Instant|
            #![trigger ticks(now)]
            is_clock_reading(now) && (ticks(now) - ticks(old(service).window.start)
                >= 1_000_000_000 ==> answer is Ok && final(service).window.start == now && final(service).window.count == 1) && (ticks(now) - ticks(old(service).window.start) < 1_000_000_000
                ==> final(service).window.start == old(service).window.start && final(service).window.count == old(service).window.count + 1 && (answer is Ok <==> old(service).window.count == 0 || old(service).window.count < old(service).requests_per_second)),
{
    if r is Some {
        let before = service.window;
        let now = choose|now: Instant|
            is_clock_reading(now) && final(service).window == #[trigger] before.counted_at(now);
        assert(ticks(now) == ticks(now));
    }
}

/// A limited service starts with a window that has seen nothing and starts when
/// the clock is read, and with the rate that was asked for.
pub proof fn lemma_rate_limit_starts_fresh<S>(
    requests_per_second: u64,
    middleware: RateLimitMiddleware,
    service: S,
    r: RateLimitService<S>,
)
    requires
        call_ensures(RateLimitMiddleware::new, (requests_per_second,), middleware),
        call_ensures(
            <RateLimitMiddleware as GrpcMiddleware<S>>::wrap,
            (middleware, service),
            r,
        ),
    ensures
        r.inner == service,
        r.requests_per_second == requests_per_second,
        r.window.count == 0,
        is_clock_reading(r.window.start),
{
}

/// The default policy tries a code again just when it tells that the service is
/// unavailable, that a resource is exhausted, that the call was aborted or that
/// its deadline expired.
pub proof fn lemma_default_retries(
    max_attempts: u32,
    retry: RetryMiddleware,
    code: Code,
    r: bool,
)
    requires
        call_ensures(RetryMiddleware::new, (max_attempts,), retry),
        call_ensures(RetryMiddleware::should_retry, (&retry, code), r),
    ensures
        r <==> code is Unavailable || code is ResourceExhausted || code is Aborted
            || code is DeadlineExceeded,
        retry.max_attempts == max_attempts,
{
    let codes = retry.retry_codes@;
    assert(codes[0] == Code::Unavailable && codes[1] == Code::ResourceExhausted && codes[2]
        == Code::Aborted && codes[3] == Code::DeadlineExceeded);
}

/// Under the default policy another attempt follows just where the last one
/// failed with one of those codes and fewer attempts were made than asked for;
/// every other code ends the call.
pub proof fn lemma_default_attempts(
    max_attempts: u32,
    retry: RetryMiddleware,
    run: &mut RetryRun,
    code: Code,
    r: bool,
)
    requires
        call_ensures(RetryMiddleware::new, (max_attempts,), retry),
        call_ensures(RetryMiddleware::next_attempt, (&retry, run, code), r),
    ensures
        r <==> old(run).attempts < max_attempts && (code is Unavailable
            || code is ResourceExhausted || code is Aborted || code is DeadlineExceeded)
            || old(run).attempts == 0 && max_attempts == 0 && (code is Unavailable
            || code is ResourceExhausted || code is Aborted || code is DeadlineExceeded),
        r ==> final(run).attempts == old(run).attempts + 1,
        !r ==> final(run).attempts == old(run).attempts,
{
    let codes = retry.retry_codes@;
    assert(codes[0] == Code::Unavailable && codes[1] == Code::ResourceExhausted && codes[2]
        == Code::Aborted && codes[3] == Code::DeadlineExceeded);
}

/// A policy with codes of its own tries just those again, as often as before.
pub proof fn lemma_own_codes_decide(
    retry: RetryMiddleware,
    codes: Vec<Code>,
    own: RetryMiddleware,
    code: Code,
    r: bool,
)
    requires
        call_ensures(RetryMiddleware::with_retry_codes, (retry, codes), own),
        call_ensures(RetryMiddleware::should_retry, (&own, code), r),
    ensures
        r <==> exists|i: int| 0 <= i < codes@.len() && #[trigger] codes@[i] == code,
        own.max_attempts == retry.max_attempts,
{
}

/// A call that is made under a policy starts with one attempt, and never makes
/// more than were asked for, the first one aside.
pub proof fn lemma_attempts_are_bounded(
    retry: RetryMiddleware,
    first: RetryRun,
    run: &mut RetryRun,
    code: Code,
    r: bool,
)
    requires
        call_ensures(RetryMiddleware::first_attempt, (&retry,), first),
        call_ensures(RetryMiddleware::next_attempt, (&retry, run, code), r),
    ensures
        first.attempts == 1,
        r ==> final(run).attempts <= retry.max_attempts || final(run).attempts == 1,
        r ==> exists|i: int|
            0 <= i < retry.retry_codes@.len() && #[trigger] retry.retry_codes@[i] == code,
{
}

/// A request that took too long is answered with an expired deadline, and load
/// that is shed with an unavailable service: just where shedding is on and no
/// permit was free.
pub proof fn lemma_refusals_tell_their_cause<S>(
    timed: TimeoutService<S>,
    late: Status,
    shed: LoadSheddingService<S>,
    permit_free: bool,
    r: Result<(), Status>,
)
    requires
        call_ensures(TimeoutService::<S>::timed_out, (&timed,), late),
        call_ensures(LoadSheddingService::<S>::on_request, (&shed, permit_free), r),
    ensures
        late@.code == Code::DeadlineExceeded,
        late@.message == "request exceeded timeout of "@ + debug_text(nanos(timed.timeout)),
        r is Err <==> shed.enabled && !permit_free,
        r matches Err(s) ==> s@.code == Code::Unavailable,
{
}

/// The services that middleware makes hold the service that was wrapped and the
/// settings that the middleware was given. A limit of none is a limit of one.
pub proof fn lemma_wrapping_keeps_settings<S>(
    timeout: Duration,
    timeouts: TimeoutMiddleware,
    max_concurrent: usize,
    limits: ConcurrencyLimitMiddleware,
    shedding: LoadSheddingMiddleware,
    service: S,
    timed: TimeoutService<S>,
    limited: ConcurrencyLimitService<S>,
    shed: LoadSheddingService<S>,
)
    requires
        call_ensures(TimeoutMiddleware::new, (timeout,), timeouts),
        call_ensures(ConcurrencyLimitMiddleware::new, (max_concurrent,), limits),
        call_ensures(<TimeoutMiddleware as GrpcMiddleware<S>>::wrap, (timeouts, service), timed),
        call_ensures(
            <ConcurrencyLimitMiddleware as GrpcMiddleware<S>>::wrap,
            (limits, service),
            limited,
        ),
        call_ensures(
            <LoadSheddingMiddleware as GrpcMiddleware<S>>::wrap,
            (shedding, service),
            shed,
        ),
    ensures
        timed.inner == service && timed.timeout == timeout,
        limited.inner == service,
        max_concurrent > 0 ==> limited.permits == max_concurrent,
        max_concurrent == 0 ==> limited.permits == 1,
        shed.inner == service && shed.enabled == shedding.enabled,
        shedding.max_concurrent > 0 ==> shed.permits == shedding.max_concurrent,
        shedding.max_concurrent == 0 ==> shed.permits == 1,
{
}

/// Load shedding is on for 64 requests in flight where nothing was set, and each
/// setter sets its own.
pub proof fn lemma_load_shedding_settings(
    fresh: LoadSheddingMiddleware,
    before: LoadSheddingMiddleware,
    enabled: bool,
    max_concurrent: usize,
    switched: LoadSheddingMiddleware,
    capped: LoadSheddingMiddleware,
)
    requires
        call_ensures(LoadSheddingMiddleware::new, (), fresh),
        call_ensures(LoadSheddingMiddleware::enabled, (before, enabled), switched),
        call_ensures(LoadSheddingMiddleware::max_concurrent, (before, max_concurrent), capped),
    ensures
        fresh.enabled && fresh.max_concurrent == 64,
        switched.enabled == enabled && switched.max_concurrent == before.max_concurrent,
        capped.max_concurrent == max_concurrent && capped.enabled == before.enabled,
{
}

/// A window is counted by how long ago it started: once a second has passed it
/// starts anew at the instant given, and before that it counts one more. The
/// first request of a window is always let through, and the others as long as
/// the count is within the rate.
pub proof fn lemma_window_is_counted(
    window: &mut RateWindow,
    elapsed: Duration,
    now: Instant,
    requests_per_second: u64,
    r: bool,
)
    requires
        window.count < u64::MAX,
        call_ensures(
            RateWindow::count_request_at,
            (window, elapsed, now, requests_per_second),
            r,
        ),
    ensures
        nanos(elapsed) >= 1_000_000_000 ==> final(window).start == now && final(window).count == 1
            && r,
        nanos(elapsed) < 1_000_000_000 ==> final(window).start == old(window).start && final(window).count == old(window).count + 1 && (r <==> old(window).count == 0 || old(window).count
            < requests_per_second),
{
}

/// Middleware tells what it holds, and refusals tell their cause.
pub proof fn lemma_middleware_tells_what_it_holds(
    timeouts: TimeoutMiddleware,
    timeout: Duration,
    limits: ConcurrencyLimitMiddleware,
    limit: usize,
    rates: RateLimitMiddleware,
    rps: u64,
    retry: RetryMiddleware,
    attempts: u32,
    copy: RetryMiddleware,
    limited: Status,
    text: &str,
    late: Status,
)
    requires
        call_ensures(TimeoutMiddleware::timeout, (&timeouts,), timeout),
        call_ensures(ConcurrencyLimitMiddleware::limit, (&limits,), limit),
        call_ensures(RateLimitMiddleware::rps, (&rates,), rps),
        call_ensures(RetryMiddleware::max_attempts, (&retry,), attempts),
        call_ensures(<RetryMiddleware as Clone>::clone, (&retry,), copy),
        call_ensures(rate_limited, (), limited),
        call_ensures(timed_out_after, (text,), late),
    ensures
        timeout == timeouts.timeout,
        limit == limits.max_concurrent,
        rps == rates.requests_per_second,
        attempts == retry.max_attempts,
        copy.max_attempts == retry.max_attempts && copy.retry_codes@ == retry.retry_codes@,
        limited@.code == Code::ResourceExhausted && limited@.message == "rate limit exceeded"@,
        late@.code == Code::DeadlineExceeded && late@.message == "request exceeded timeout of "@
            + text@,
{
}

} // verus!
