use crate::breaker::{Breaker, Config, ConstantWait, Status, WaitStrategy};
use crate::error::{AnyError, Error, ErrorPredicate};
use crate::rate::Ratio;
use std::time::{Duration, Instant};
use vstd::prelude::*;
use vstd::rwlock::{RwLock, RwLockPredicate};

verus! {

/// `std::time::Instant`, held opaque: the origin of a recloser's clock.
#[verifier::external_type_specification]
#[verifier::external_body]
pub struct ExInstant(std::time::Instant);

/// Relies on `std::time::Instant::now`: a reading of the monotonic clock.
#[verifier::external_body]
fn clock_now() -> Instant {
    Instant::now()
}

/// Relies on `std::time::Instant::elapsed`: the time since `origin` on the monotonic clock.
#[verifier::external_body]
fn elapsed_since(origin: &Instant) -> Duration {
    origin.elapsed()
}

/// Relies on `std::time::Duration::as_millis`: the whole milliseconds of `d`.
#[verifier::external_body]
fn whole_millis(d: &Duration) -> u128 {
    d.as_millis()
}

/// The breaker behind a lock is always well formed, with the settings and
/// the strategy it was built with.
struct WellFormed<S> {
    config: Config,
    strategy: S,
}

impl<S: WaitStrategy> RwLockPredicate<Breaker<S>> for WellFormed<S> {
    closed spec fn inv(self, b: Breaker<S>) -> bool {
        &&& b.wf()
        &&& b.config() == self.config
        &&& b.strategy() == self.strategy
    }
}

/// A circuit breaker that many threads can share.
///
/// It holds a [`Breaker`] behind a lock: each of its operations is one step of
/// that state machine, taken while holding the lock, so the steps of all
/// threads follow one another as the breaker's contracts describe. A wrapped
/// call itself runs without the lock. Times are milliseconds since the
/// recloser was built.
pub struct Recloser<S: WaitStrategy = ConstantWait> {
    breaker: RwLock<Breaker<S>, WellFormed<S>>,
    origin: Instant,
}

/// The default settings: thresholds of one half, a closed window of 100 calls,
/// a half-open window of 10, 30 s open, no bound on the wait.
pub open spec fn default_config() -> Config {
    Config {
        threshold_closed: Ratio { num: 1, den: 2 },
        threshold_half_open: Ratio { num: 1, den: 2 },
        closed_len: 100,
        half_open_len: 10,
        open_wait: 30_000,
        max_wait: u64::MAX,
    }
}

impl Recloser<ConstantWait> {
    /// A builder with the default settings and no wait strategy.
    pub fn custom() -> (r: RecloserBuilder<ConstantWait>)
        ensures
            r.config() == default_config(),
    {
        RecloserBuilder::new()
    }
}

impl Default for Recloser<ConstantWait> {
    /// A recloser with the default settings and no wait strategy.
    fn default() -> (r: Self)
        ensures
            r.config() == default_config(),
            r.strategy() == ConstantWait,
    {
        Recloser::custom().build()
    }
}

impl<S: WaitStrategy> Recloser<S> {
    /// The settings the recloser was built with.
    pub closed spec fn config(&self) -> Config {
        self.breaker.pred().config
    }

    /// The wait strategy the recloser was built with.
    pub closed spec fn strategy(&self) -> S {
        self.breaker.pred().strategy
    }

    /// Milliseconds since the recloser was built, on the monotonic clock.
    pub fn now_ms(&self) -> u64 {
        let ms = whole_millis(&elapsed_since(&self.origin));
        if ms > u64::MAX as u128 {
            u64::MAX
        } else {
            ms as u64
        }
    }

    /// Whether a call may go ahead at time `now`: one step
    /// [`Breaker::is_call_permitted`] under the lock.
    pub fn call_permitted_at(&self, now: u64) -> bool {
        let (mut b, handle) = self.breaker.acquire_write();
        let r = b.is_call_permitted(now);
        handle.release_write(b);
        r
    }

    /// Reports a successful call at time `now`: one step
    /// [`Breaker::record_success`] under the lock.
    pub fn on_success_at(&self, now: u64) {
        let (mut b, handle) = self.breaker.acquire_write();
        b.record_success(now);
        handle.release_write(b);
    }

    /// Reports a failed call at time `now`: one step
    /// [`Breaker::record_failure`] under the lock.
    pub fn on_error_at(&self, now: u64) {
        let (mut b, handle) = self.breaker.acquire_write();
        b.record_failure(now);
        handle.release_write(b);
    }

    /// The current state.
    pub fn status(&self) -> Status {
        let handle = self.breaker.acquire_read();
        let r = handle.borrow().status();
        handle.release_read();
        r
    }

    /// Reports the result of a wrapped call at time `now` and hands it back,
    /// with its error wrapped in [`Error::Inner`].
    fn report<P, T, E>(&self, predicate: &P, res: Result<T, E>, now: u64) -> (r: Result<
        T,
        Error<E>,
    >) where P: ErrorPredicate<E>
        requires
            predicate.is_total(),
        ensures
            match res {
                Ok(v) => r == Ok::<T, Error<E>>(v),
                Err(e) => r == Err::<T, Error<E>>(Error::Inner(e)),
            },
    {
        match res {
            Ok(v) => {
                self.on_success_at(now);
                Ok(v)
            },
            Err(e) => {
                if predicate.is_err(&e) {
                    self.on_error_at(now);
                } else {
                    self.on_success_at(now);
                }
                Err(Error::Inner(e))
            },
        }
    }

    /// Makes the call `f` if the breaker lets it through, counting any error
    /// as a failure. See [`Recloser::call_with`].
    pub fn call<F, T, E>(&self, f: F) -> (r: Result<T, Error<E>>) where F: FnOnce() -> Result<T, E>
        requires
            f.requires(()),
        ensures
            match r {
                Ok(v) => f.ensures((), Ok::<T, E>(v)),
                Err(Error::Inner(e)) => f.ensures((), Err::<T, E>(e)),
                Err(Error::Rejected) => true,
            },
    {
        self.call_with(AnyError, f)
    }

    /// Makes the call `f` if the breaker lets it through, and reports its
    /// outcome: a success, or an error that `predicate` does not count, as a
    /// success; another error as a failure. Returns `Err(Error::Rejected)`
    /// without calling `f` when the breaker is open; else what `f` returned,
    /// its error wrapped in [`Error::Inner`]. Times come from the monotonic clock.
    pub fn call_with<P, F, T, E>(&self, predicate: P, f: F) -> (r: Result<T, Error<E>>) where
        P: ErrorPredicate<E>,
        F: FnOnce() -> Result<T, E>,

        requires
            f.requires(()),
            predicate.is_total(),
        ensures
            match r {
                Ok(v) => f.ensures((), Ok::<T, E>(v)),
                Err(Error::Inner(e)) => f.ensures((), Err::<T, E>(e)),
                Err(Error::Rejected) => true,
            },
    {
        if !self.call_permitted_at(self.now_ms()) {
            return Err(Error::Rejected);
        }
        let res = f();
        self.report(&predicate, res, self.now_ms())
    }

    /// As [`Recloser::call`], with the time given by the caller.
    pub fn call_at<F, T, E>(&self, now: u64, f: F) -> (r: Result<T, Error<E>>) where
        F: FnOnce() -> Result<T, E>,

        requires
            f.requires(()),
        ensures
            match r {
                Ok(v) => f.ensures((), Ok::<T, E>(v)),
                Err(Error::Inner(e)) => f.ensures((), Err::<T, E>(e)),
                Err(Error::Rejected) => true,
            },
    {
        self.call_with_at(now, AnyError, f)
    }

    /// As [`Recloser::call_with`], with the time given by the caller.
    pub fn call_with_at<P, F, T, E>(&self, now: u64, predicate: P, f: F) -> (r: Result<
        T,
        Error<E>,
    >) where P: ErrorPredicate<E>, F: FnOnce() -> Result<T, E>
        requires
            f.requires(()),
            predicate.is_total(),
        ensures
            match r {
                Ok(v) => f.ensures((), Ok::<T, E>(v)),
                Err(Error::Inner(e)) => f.ensures((), Err::<T, E>(e)),
                Err(Error::Rejected) => true,
            },
    {
        if !self.call_permitted_at(now) {
            return Err(Error::Rejected);
        }
        let res = f();
        self.report(&predicate, res, now)
    }
}

/// Builds a [`Recloser`] with custom settings.
pub struct RecloserBuilder<S> {
    config: Config,
    strategy: S,
}

impl RecloserBuilder<ConstantWait> {
    fn new() -> (r: RecloserBuilder<ConstantWait>)
        ensures
            r.config() == default_config(),
    {
        RecloserBuilder {
            config: Config {
                threshold_closed: Ratio { num: 1, den: 2 },
                threshold_half_open: Ratio { num: 1, den: 2 },
                closed_len: 100,
                half_open_len: 10,
                open_wait: 30_000,
                max_wait: u64::MAX,
            },
            strategy: ConstantWait,
        }
    }
}

impl<S: WaitStrategy> RecloserBuilder<S> {
    /// The settings so far.
    pub closed spec fn config(&self) -> Config {
        self.config
    }

    /// The wait strategy so far.
    pub closed spec fn strategy(&self) -> S {
        self.strategy
    }

    /// Sets both thresholds.
    pub fn error_rate(self, threshold: Ratio) -> (r: Self)
        ensures
            r.config() == (Config {
                threshold_closed: threshold,
                threshold_half_open: threshold,
                ..self.config()
            }),
            r.strategy() == self.strategy(),
    {
        let mut b = self;
        b.config.threshold_closed = threshold;
        b.config.threshold_half_open = threshold;
        b
    }

    /// Sets the threshold at which a closed breaker opens.
    pub fn error_rate_closed(self, threshold: Ratio) -> (r: Self)
        ensures
            r.config() == (Config { threshold_closed: threshold, ..self.config() }),
            r.strategy() == self.strategy(),
    {
        let mut b = self;
        b.config.threshold_closed = threshold;
        b
    }

    /// Sets the threshold that decides a half-open breaker.
    pub fn error_rate_half_open(self, threshold: Ratio) -> (r: Self)
        ensures
            r.config() == (Config { threshold_half_open: threshold, ..self.config() }),
            r.strategy() == self.strategy(),
    {
        let mut b = self;
        b.config.threshold_half_open = threshold;
        b
    }

    /// Sets the window length while closed.
    pub fn closed_len(self, closed_len: usize) -> (r: Self)
        ensures
            r.config() == (Config { closed_len, ..self.config() }),
            r.strategy() == self.strategy(),
    {
        let mut b = self;
        b.config.closed_len = closed_len;
        b
    }

    /// Sets the window length while half-open.
    pub fn half_open_len(self, half_open_len: usize) -> (r: Self)
        ensures
            r.config() == (Config { half_open_len, ..self.config() }),
            r.strategy() == self.strategy(),
    {
        let mut b = self;
        b.config.half_open_len = half_open_len;
        b
    }

    /// Sets the base time to stay open, in milliseconds.
    pub fn open_wait(self, open_wait: u64) -> (r: Self)
        ensures
            r.config() == (Config { open_wait, ..self.config() }),
            r.strategy() == self.strategy(),
    {
        let mut b = self;
        b.config.open_wait = open_wait;
        b
    }

    /// Sets the upper bound, in milliseconds, on the time to stay open after a
    /// failed probe window.
    pub fn max_wait(self, max_wait: u64) -> (r: Self)
        ensures
            r.config() == (Config { max_wait, ..self.config() }),
            r.strategy() == self.strategy(),
    {
        let mut b = self;
        b.config.max_wait = max_wait;
        b
    }

    /// Sets the strategy that computes the time to stay open after a failed
    /// probe window.
    pub fn open_wait_strategy<T: WaitStrategy>(self, open_wait_strategy: T) -> (r:
        RecloserBuilder<T>)
        ensures
            r.config() == self.config(),
            r.strategy() == open_wait_strategy,
    {
        RecloserBuilder { config: self.config, strategy: open_wait_strategy }
    }

    /// The recloser with these settings, closed, with an empty window.
    pub fn build(self) -> (r: Recloser<S>)
        requires
            self.config().wf(),
            self.strategy().is_pure(),
        ensures
            r.config() == self.config(),
            r.strategy() == self.strategy(),
    {
        let ghost pred = WellFormed { config: self.config, strategy: self.strategy };
        let b = Breaker::new(self.config, self.strategy);
        Recloser { breaker: RwLock::new(b, Ghost(pred)), origin: clock_now() }
    }
}

} // verus!
