use crate::rate::{rate_at_least, rate_at_most, reaches, within, Ratio};
use crate::ring_buffer::{failures, last_n, RingBuffer};
use vstd::prelude::*;

verus! {

/// Computes how long the breaker stays open after a probe window failed.
///
/// `next_wait` gets the flap count (how many times the breaker opened in a row
/// without closing) and the configured base wait, in milliseconds, and returns
/// the wait in milliseconds. It must answer each pair of arguments with one
/// value and have no side effects.
pub trait WaitStrategy: Send + Sync + 'static {
    /// The strategy can be asked for any arguments and answers each with one value.
    spec fn is_pure(&self) -> bool;

    /// The wait that the strategy gives for `fail_count` and `open_wait`.
    spec fn wait_for(&self, fail_count: u32, open_wait: u64) -> u64;

    fn next_wait(&self, fail_count: u32, open_wait: u64) -> (r: u64)
        requires
            self.is_pure(),
        ensures
            r == self.wait_for(fail_count, open_wait),
    ;
}

impl<F> WaitStrategy for F where F: Fn(u32, u64) -> u64 + Send + Sync + 'static {
    open spec fn is_pure(&self) -> bool {
        &&& forall|fc: u32, w: u64| #[trigger] self.requires((fc, w))
        &&& forall|fc: u32, w: u64, a: u64, b: u64|
            #[trigger] self.ensures((fc, w), a) && #[trigger] self.ensures((fc, w), b) ==> a == b
    }

    open spec fn wait_for(&self, fail_count: u32, open_wait: u64) -> u64 {
        choose|r: u64| self.ensures((fail_count, open_wait), r)
    }

    fn next_wait(&self, fail_count: u32, open_wait: u64) -> (r: u64) {
        let r = (self)(fail_count, open_wait);
        assert(self.ensures((fail_count, open_wait), self.wait_for(fail_count, open_wait)));
        r
    }
}

/// The strategy used when none is configured: the wait is always the base wait.
#[derive(Clone, Copy, Debug)]
pub struct ConstantWait;

impl WaitStrategy for ConstantWait {
    open spec fn is_pure(&self) -> bool {
        true
    }

    open spec fn wait_for(&self, fail_count: u32, open_wait: u64) -> u64 {
        open_wait
    }

    fn next_wait(&self, fail_count: u32, open_wait: u64) -> (r: u64) {
        open_wait
    }
}

/// The settings of a breaker. Times are in milliseconds.
#[derive(Clone, Copy, Debug)]
pub struct Config {
    /// Failure rate at which a closed breaker opens.
    pub threshold_closed: Ratio,
    /// Failure rate at which a half-open breaker opens again; at or under it, it closes.
    pub threshold_half_open: Ratio,
    /// Window length while closed.
    pub closed_len: usize,
    /// Window length while half-open.
    pub half_open_len: usize,
    /// Base time to stay open.
    pub open_wait: u64,
    /// Upper bound on the time to stay open after a failed probe window.
    pub max_wait: u64,
}

impl Config {
    /// Both windows are non-empty and both thresholds have a positive denominator.
    pub open spec fn wf(&self) -> bool {
        &&& self.closed_len > 0
        &&& self.half_open_len > 0
        &&& self.threshold_closed.wf()
        &&& self.threshold_half_open.wf()
    }
}

/// The state of a breaker as a mathematical value: in `Closed` and `HalfOpen`,
/// every outcome recorded since the state began, oldest first; in `Open`, the
/// deadline after which calls are let through again; in `Open` and `HalfOpen`,
/// the flap count.
pub enum Phase {
    Closed(Seq<bool>),
    Open(u64, u32),
    HalfOpen(Seq<bool>, u32),
}

/// What callers can see of a breaker's state.
#[derive(Clone, Copy, Debug, PartialEq, Eq)]
pub enum Status {
    Closed,
    /// Deadline in milliseconds, and flap count.
    Open(u64, u32),
    /// Flap count.
    HalfOpen(u32),
}

/// What callers see of the state `p`.
pub open spec fn status_of(p: Phase) -> Status {
    match p {
        Phase::Closed(_) => Status::Closed,
        Phase::Open(d, f) => Status::Open(d, f),
        Phase::HalfOpen(_, f) => Status::HalfOpen(f),
    }
}

/// Whether recording `outcome` after `h` in a window of `len` yields a rate,
/// and that rate reaches `t`.
pub open spec fn trips(h: Seq<bool>, outcome: bool, len: nat, t: Ratio) -> bool {
    h.len() >= len && rate_at_least(failures(last_n(h.push(outcome), len)), len, t)
}

/// Whether recording `outcome` after `h` in a window of `len` yields a rate,
/// and that rate stays at or under `t`.
pub open spec fn recovers(h: Seq<bool>, outcome: bool, len: nat, t: Ratio) -> bool {
    h.len() >= len && rate_at_most(failures(last_n(h.push(outcome), len)), len, t)
}

/// The smaller of two waits.
pub open spec fn min_wait(a: u64, b: u64) -> u64 {
    if a <= b {
        a
    } else {
        b
    }
}

/// The next state after a call was reported as a success at time `now`. A
/// deadline stops at the largest time.
pub open spec fn success_step(cfg: Config, p: Phase, now: u64) -> Phase {
    match p {
        Phase::Closed(h) => if trips(h, false, cfg.closed_len as nat, cfg.threshold_closed) {
            Phase::Open(now.saturating_add(cfg.open_wait), 1)
        } else {
            Phase::Closed(h.push(false))
        },
        Phase::HalfOpen(h, f) => if recovers(
            h,
            false,
            cfg.half_open_len as nat,
            cfg.threshold_half_open,
        ) {
            Phase::Closed(Seq::empty())
        } else {
            Phase::HalfOpen(h.push(false), f)
        },
        Phase::Open(_, _) => p,
    }
}

/// The next state after a call was reported as a failure at time `now`;
/// `next_wait` is what the wait strategy gives for the current flap count.
/// Deadlines and flap counts stop at the largest value of their type.
pub open spec fn failure_step(cfg: Config, p: Phase, now: u64, next_wait: u64) -> Phase {
    match p {
        Phase::Closed(h) => if trips(h, true, cfg.closed_len as nat, cfg.threshold_closed) {
            Phase::Open(now.saturating_add(cfg.open_wait), 1)
        } else {
            Phase::Closed(h.push(true))
        },
        Phase::HalfOpen(h, f) => if trips(
            h,
            true,
            cfg.half_open_len as nat,
            cfg.threshold_half_open,
        ) {
            Phase::Open(now.saturating_add(min_wait(next_wait, cfg.max_wait)), f.saturating_add(1))
        } else {
            Phase::HalfOpen(h.push(true), f)
        },
        Phase::Open(_, _) => p,
    }
}

/// Whether a call is let through at time `now`, and the state after the check.
pub open spec fn permit_step(p: Phase, now: u64) -> (bool, Phase) {
    match p {
        Phase::Open(d, f) => if now > d {
            (true, Phase::HalfOpen(Seq::empty(), f))
        } else {
            (false, p)
        },
        _ => (true, p),
    }
}

/// The flap count of a state, `0` while closed.
pub open spec fn flap_of(p: Phase) -> u32 {
    match p {
        Phase::Closed(_) => 0,
        Phase::Open(_, f) => f,
        Phase::HalfOpen(_, f) => f,
    }
}

/// The state after recording `outcome` at time `now` (`true` for a failure);
/// `next_wait` is what the wait strategy gives for the current flap count.
pub open spec fn record_step(cfg: Config, p: Phase, outcome: bool, now: u64, next_wait: u64) -> Phase {
    if outcome {
        failure_step(cfg, p, now, next_wait)
    } else {
        success_step(cfg, p, now)
    }
}

/// The state after recording `outcomes` in turn, all at time `now`, with no
/// permit check in between.
pub open spec fn run(cfg: Config, p: Phase, outcomes: Seq<bool>, now: u64, next_wait: u64) -> Phase
    decreases outcomes.len(),
{
    if outcomes.len() == 0 {
        p
    } else {
        record_step(
            cfg,
            run(cfg, p, outcomes.drop_last(), now, next_wait),
            outcomes.last(),
            now,
            next_wait,
        )
    }
}

/// Outcome `k` of `outcomes` was recorded after at least `closed_len` others,
/// and the last `closed_len` outcomes up to it have a failure rate that reaches
/// the closed threshold.
pub open spec fn trips_at(cfg: Config, outcomes: Seq<bool>, k: int) -> bool {
    &&& cfg.closed_len <= k < outcomes.len()
    &&& rate_at_least(
        failures(outcomes.subrange(k + 1 - cfg.closed_len, k + 1)),
        cfg.closed_len as nat,
        cfg.threshold_closed,
    )
}

/// Starting closed with an empty window, a run of outcomes opens the breaker
/// exactly when one of them completes a full window whose failure rate reaches
/// the threshold. It opens once, with flap count 1, and stays open through the
/// outcomes that follow; otherwise it stays closed with every outcome in its
/// window.
pub proof fn lemma_closed_run_opens_once(cfg: Config, outcomes: Seq<bool>, now: u64, next_wait: u64)
    requires
        cfg.wf(),
    ensures
        run(cfg, Phase::Closed(Seq::empty()), outcomes, now, next_wait) == if exists|k: int|
            trips_at(cfg, outcomes, k) {
            Phase::Open(now.saturating_add(cfg.open_wait), 1)
        } else {
            Phase::Closed(outcomes)
        },
    decreases outcomes.len(),
{
    if outcomes.len() > 0 {
        let n = outcomes.len() as int;
        let pre = outcomes.drop_last();
        lemma_closed_run_opens_once(cfg, pre, now, next_wait);
        assert forall|k: int| k < n - 1 implies trips_at(cfg, pre, k) == trips_at(
            cfg,
            outcomes,
            k,
        ) by {
            if cfg.closed_len <= k && k < n - 1 {
                assert(pre.subrange(k + 1 - cfg.closed_len, k + 1) =~= outcomes.subrange(
                    k + 1 - cfg.closed_len,
                    k + 1,
                ));
            }
        }
        assert(pre.push(outcomes.last()) =~= outcomes);
        if exists|k: int| trips_at(cfg, pre, k) {
            let k = choose|k: int| trips_at(cfg, pre, k);
            assert(trips_at(cfg, outcomes, k));
        } else {
            let len = cfg.closed_len as nat;
            if pre.len() >= len {
                assert(last_n(outcomes, len) =~= outcomes.subrange(n - len, n));
                if trips_at(cfg, outcomes, n - 1) {
                } else {
                    assert forall|k: int| !trips_at(cfg, outcomes, k) by {
                        if k < n - 1 {
                            assert(!trips_at(cfg, pre, k));
                        }
                    }
                }
            } else {
                assert forall|k: int| !trips_at(cfg, outcomes, k) by {
                    if k < n - 1 {
                        assert(!trips_at(cfg, pre, k));
                    }
                }
            }
        }
    } else {
        assert(outcomes =~= Seq::<bool>::empty());
    }
}

/// An open breaker rejects calls until its deadline and, on the first check
/// after it, lets the call through and turns half-open with an empty window
/// and the same flap count.
pub proof fn lemma_open_until_deadline(deadline: u64, flap: u32, now: u64)
    ensures
        now <= deadline ==> permit_step(Phase::Open(deadline, flap), now) == (
        false,
        Phase::Open(deadline, flap),
        ),
        now > deadline ==> permit_step(Phase::Open(deadline, flap), now) == (
        true,
        Phase::HalfOpen(Seq::empty(), flap),
        ),
{
}

/// The flap count is 1 when a closed breaker opens, is kept when an open
/// breaker turns half-open, grows by one each time a half-open breaker opens
/// again, and is gone once the breaker closes.
pub proof fn lemma_flap_count(cfg: Config, p: Phase, outcome: bool, now: u64, next_wait: u64)
    ensures
        p is Closed ==> match record_step(cfg, p, outcome, now, next_wait) {
            Phase::Open(_, f) => f == 1,
            Phase::Closed(_) => true,
            Phase::HalfOpen(_, _) => false,
        },
        p is Open ==> permit_step(p, now).1 is Open || permit_step(p, now).1 == Phase::HalfOpen(
            Seq::empty(),
            flap_of(p),
        ),
        p is HalfOpen && flap_of(p) < u32::MAX ==> match record_step(
            cfg,
            p,
            outcome,
            now,
            next_wait,
        ) {
            Phase::Open(_, f) => f == flap_of(p) + 1,
            Phase::HalfOpen(_, f) => f == flap_of(p),
            Phase::Closed(h) => h.len() == 0 && !outcome,
        },
{
}

/// When a half-open breaker opens again, it stays open for the strategy's
/// wait, at most the configured maximum.
pub proof fn lemma_reopen_wait(cfg: Config, h: Seq<bool>, flap: u32, now: u64, next_wait: u64)
    ensures
        failure_step(cfg, Phase::HalfOpen(h, flap), now, next_wait) is Open ==> failure_step(
            cfg,
            Phase::HalfOpen(h, flap),
            now,
            next_wait,
        ) == Phase::Open(now.saturating_add(min_wait(next_wait, cfg.max_wait)), flap.saturating_add(1)),
{
}

enum State {
    Closed(RingBuffer),
    Open(u64, u32),
    HalfOpen(RingBuffer, u32),
}

impl State {
    closed spec fn view(&self) -> Phase {
        match self {
            State::Closed(rb) => Phase::Closed(rb@),
            State::Open(d, f) => Phase::Open(*d, *f),
            State::HalfOpen(rb, f) => Phase::HalfOpen(rb@, *f),
        }
    }
}

/// A circuit breaker as a sequential state machine.
///
/// It is closed, open or half-open. While closed or half-open it lets calls
/// through and records their outcomes in a window; while open it rejects them.
/// Times are milliseconds on a monotonic clock chosen by the caller.
pub struct Breaker<S> {
    config: Config,
    strategy: S,
    state: State,
}

impl<S: WaitStrategy> View for Breaker<S> {
    type V = Phase;

    closed spec fn view(&self) -> Phase {
        self.state.view()
    }
}

impl<S: WaitStrategy> Breaker<S> {
    pub closed spec fn config(&self) -> Config {
        self.config
    }

    pub closed spec fn strategy(&self) -> S {
        self.strategy
    }

    pub closed spec fn wf(&self) -> bool {
        &&& self.config.wf()
        &&& self.strategy.is_pure()
        &&& match &self.state {
            State::Closed(rb) => rb.wf() && rb.len() == self.config.closed_len,
            State::Open(_, f) => *f >= 1,
            State::HalfOpen(rb, f) => rb.wf() && rb.len() == self.config.half_open_len && *f >= 1,
        }
    }

    /// While open or half-open, the breaker has opened at least once since it
    /// last closed: its flap count is at least 1.
    pub proof fn lemma_flap_positive(&self)
        requires
            self.wf(),
        ensures
            !(self@ is Closed) ==> flap_of(self@) >= 1,
    {
    }

    /// The wait that the strategy gives for `fail_count`, at most the configured maximum.
    pub open spec fn open_wait_for(&self, fail_count: u32) -> u64 {
        min_wait(
            self.strategy().wait_for(fail_count, self.config().open_wait),
            self.config().max_wait,
        )
    }

    /// A closed breaker with an empty window.
    pub fn new(config: Config, strategy: S) -> (r: Breaker<S>)
        requires
            config.wf(),
            strategy.is_pure(),
        ensures
            r.wf(),
            r.config() == config,
            r.strategy() == strategy,
            r@ == Phase::Closed(Seq::empty()),
    {
        let rb = RingBuffer::new(config.closed_len);
        Breaker { config, strategy, state: State::Closed(rb) }
    }

    /// How long the breaker stays open after a failed probe window at flap
    /// count `fail_count`: the strategy's wait, at most the configured maximum.
    pub fn next_open_wait(&self, fail_count: u32) -> (r: u64)
        requires
            self.wf(),
        ensures
            r == self.open_wait_for(fail_count),
    {
        let w = self.strategy.next_wait(fail_count, self.config.open_wait);
        if w <= self.config.max_wait {
            w
        } else {
            self.config.max_wait
        }
    }

    /// The state as callers see it.
    pub fn status(&self) -> (r: Status)
        ensures
            r == status_of(self@),
    {
        match &self.state {
            State::Closed(_) => Status::Closed,
            State::Open(d, f) => Status::Open(*d, *f),
            State::HalfOpen(_, f) => Status::HalfOpen(*f),
        }
    }

    /// Whether a call may go ahead at time `now`. An open breaker whose
    /// deadline has passed turns half-open with an empty probe window.
    pub fn is_call_permitted(&mut self, now: u64) -> (r: bool)
        requires
            old(self).wf(),
        ensures
            final(self).wf(),
            final(self).config() == old(self).config(),
            final(self).strategy() == old(self).strategy(),
            (r, final(self)@) == permit_step(old(self)@, now),
    {
        match &self.state {
            State::Open(d, f) => {
                if now > *d {
                    let fc = *f;
                    let rb = RingBuffer::new(self.config.half_open_len);
                    self.state = State::HalfOpen(rb, fc);
                    true
                } else {
                    false
                }
            },
            _ => true,
        }
    }

    /// Records a call that succeeded at time `now`.
    pub fn record_success(&mut self, now: u64)
        requires
            old(self).wf(),
        ensures
            final(self).wf(),
            final(self).config() == old(self).config(),
            final(self).strategy() == old(self).strategy(),
            final(self)@ == success_step(old(self).config(), old(self)@, now),
    {
        let ghost p = self@;
        let cfg = self.config;
        let next = match &mut self.state {
            State::Closed(rb) => {
                let rate = rb.set_current(false);
                match rate {
                    Some(c) => if reaches(c, cfg.closed_len, cfg.threshold_closed) {
                        Some(State::Open(now.saturating_add(cfg.open_wait), 1))
                    } else {
                        None
                    },
                    None => None,
                }
            },
            State::HalfOpen(rb, _) => {
                let rate = rb.set_current(false);
                match rate {
                    Some(c) => if within(c, cfg.half_open_len, cfg.threshold_half_open) {
                        Some(State::Closed(RingBuffer::new(cfg.closed_len)))
                    } else {
                        None
                    },
                    None => None,
                }
            },
            State::Open(_, _) => None,
        };
        if let Some(s) = next {
            self.state = s;
        }
    }

    /// Records a call that failed at time `now`.
    pub fn record_failure(&mut self, now: u64)
        requires
            old(self).wf(),
        ensures
            final(self).wf(),
            final(self).config() == old(self).config(),
            final(self).strategy() == old(self).strategy(),
            final(self)@ == failure_step(
                old(self).config(),
                old(self)@,
                now,
                old(self).strategy().wait_for(flap_of(old(self)@), old(self).config().open_wait),
            ),
    {
        let cfg = self.config;
        // which transition the recorded outcome calls for: into `Open` from
        // `Closed`, or into `Open` from `HalfOpen` at the given flap count
        let mut from_closed = false;
        let mut from_half_open: Option<u32> = None;
        match &mut self.state {
            State::Closed(rb) => {
                let rate = rb.set_current(true);
                if let Some(c) = rate {
                    from_closed = reaches(c, cfg.closed_len, cfg.threshold_closed);
                }
            },
            State::HalfOpen(rb, f) => {
                let rate = rb.set_current(true);
                if let Some(c) = rate {
                    if reaches(c, cfg.half_open_len, cfg.threshold_half_open) {
                        from_half_open = Some(*f);
                    }
                }
            },
            State::Open(_, _) => {},
        }
        if from_closed {
            self.state = State::Open(now.saturating_add(cfg.open_wait), 1);
        } else if let Some(f) = from_half_open {
            let wait = self.next_open_wait(f);
            self.state = State::Open(now.saturating_add(wait), f.saturating_add(1));
        }
    }
}

} // verus!
