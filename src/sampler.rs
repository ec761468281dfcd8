//! Sampling policies: which spans are kept.
use std::time::Instant;

use vstd::prelude::*;

verus! {

/// A policy deciding, item by item, whether an item is kept.
pub trait Sampler<T>: Sized {
    /// Whether a call on `self` may answer `r` and leave `next`. A
    /// sampler that does not say allows any answer.
    open spec fn decides(&self, next: &Self, r: bool) -> bool {
        true
    }

    fn sample(&mut self, item: &T) -> (r: bool)
        ensures
            old(self).decides(&*final(self), r),
    ;
}

/// Keeps one item in every `sample_rate`: the first, then every
/// `sample_rate`-th one after it.
#[derive(Debug)]
pub struct FixedRate {
    pub sample_rate: usize,
    /// How many items the sampler has been asked about, wrapping around
    /// at the word size.
    pub total_items: usize,
}

/// Whether a fixed-rate sampler with rate `rate` keeps the item that
/// comes after `seen` others.
pub open spec fn fixed_rate_keeps(rate: nat, seen: nat) -> bool {
    seen % rate == 0
}

/// The item counter after one more item; it wraps around at the word size.
pub open spec fn next_count(seen: nat) -> nat {
    if seen >= usize::MAX { 0 } else { seen + 1 }
}

impl FixedRate {
    /// How many items this sampler has been asked about (wrapping
    /// around at the word size).
    pub open spec fn seen(&self) -> nat {
        self.total_items as nat
    }

    /// The sampling rate.
    pub open spec fn rate(&self) -> nat {
        self.sample_rate as nat
    }

    pub fn new(sample_rate: usize) -> (r: FixedRate)
        ensures
            r.sample_rate == sample_rate,
            r.rate() == sample_rate,
            r.seen() == 0,
    {
        FixedRate { sample_rate, total_items: 0 }
    }

    /// Decides on the next item: kept exactly when the number of items
    /// seen before it is a multiple of the rate.
    pub fn next(&mut self) -> (r: bool)
        requires
            old(self).rate() > 0,
        ensures
            r == fixed_rate_keeps(old(self).rate(), old(self).seen()),
            final(self).rate() == old(self).rate(),
            final(self).seen() == next_count(old(self).seen()),
    {
        let r = self.total_items % self.sample_rate == 0;
        self.total_items = if self.total_items == usize::MAX { 0 } else { self.total_items + 1 };
        r
    }
}

impl Default for FixedRate {
    fn default() -> (r: FixedRate)
        ensures
            r.rate() == 1,
            r.seen() == 0,
    {
        FixedRate::new(1)
    }
}

impl<T> Sampler<T> for FixedRate {
    /// The item is kept exactly when the count so far is a multiple of
    /// the rate; a rate of zero keeps nothing.
    open spec fn decides(&self, next: &FixedRate, r: bool) -> bool {
        &&& self.rate() > 0 ==> r == fixed_rate_keeps(self.rate(), self.seen())
        &&& self.rate() == 0 ==> !r
        &&& next.rate() == self.rate()
        &&& next.seen() == next_count(self.seen())
    }

    /// A rate of zero keeps nothing.
    fn sample(&mut self, item: &T) -> (r: bool)
        ensures
            old(self).rate() > 0 ==> r == fixed_rate_keeps(
                old(self).rate(),
                old(self).seen(),
            ),
            old(self).rate() == 0 ==> !r,
            final(self).rate() == old(self).rate(),
            final(self).seen() == next_count(old(self).seen()),
    {
        if self.sample_rate == 0 {
            self.total_items = if self.total_items == usize::MAX { 0 } else { self.total_items + 1 };
            false
        } else {
            self.next()
        }
    }
}

/// Whether `states` is a run of one fixed-rate sampler: each state is
/// the one that `sample` leaves after the one before it.
pub open spec fn is_fixed_rate_run(states: Seq<FixedRate>) -> bool {
    forall|i: int|
        1 <= i < states.len() ==> #[trigger] states[i].rate() == states[i - 1].rate()
            && states[i].seen() == next_count(states[i - 1].seen())
}

proof fn lemma_run_counts(states: Seq<FixedRate>, k: int)
    requires
        is_fixed_rate_run(states),
        states.len() >= 1,
        states[0].seen() == 0,
        0 <= k < states.len(),
        k <= usize::MAX,
    ensures
        states[k].seen() == k,
        states[k].rate() == states[0].rate(),
    decreases k,
{
    if k > 0 {
        lemma_run_counts(states, k - 1);
        assert(states[k].rate() == states[k - 1].rate());
    }
}

/// A fresh fixed-rate sampler with rate n >= 1 keeps call number `call`
/// (counting from one) exactly when it is one of 1, n + 1, 2n + 1, ...,
/// and turns the others away; the decision on that call is made in
/// `states[call - 1]`.
pub proof fn lemma_fixed_rate_schedule(states: Seq<FixedRate>, call: nat)
    requires
        is_fixed_rate_run(states),
        states.len() >= 1,
        states[0].seen() == 0,
        states[0].rate() >= 1,
        1 <= call <= states.len(),
        call <= usize::MAX + 1,
    ensures
        fixed_rate_keeps(states[call - 1].rate(), states[call - 1].seen()) <==> exists|j: nat|
            call == #[trigger] (j * states[0].rate()) + 1,
{
    lemma_run_counts(states, call - 1);
    let n = states[0].rate();
    let c = (call - 1) as nat;
    if fixed_rate_keeps(n, c) {
        let j = c / n;
        assert(c == j * n) by (nonlinear_arith)
            requires c % n == 0, j == c / n, n >= 1;
        assert(call == j * n + 1);
    }
    if exists|j: nat| call == #[trigger] (j * n) + 1 {
        let j = choose|j: nat| call == #[trigger] (j * n) + 1;
        assert(c == j * n);
        assert((j * n) % n == 0) by (nonlinear_arith)
            requires n >= 1;
    }
}

#[verifier::external_type_specification]
#[verifier::external_body]
pub struct ExInstant(Instant);

/// Relies on `Instant::now`: reads the monotonic clock.
#[verifier::external_body]
fn instant_now() -> Instant {
    Instant::now()
}

/// Relies on `Instant::elapsed` and `Duration::as_micros`: whole
/// microseconds since `t` on the monotonic clock.
#[verifier::external_body]
fn micros_since(t: &Instant) -> u128 {
    t.elapsed().as_micros()
}

/// Relies on `Duration::as_micros`: the whole microseconds in `d`.
#[verifier::external_body]
fn duration_micros(d: &std::time::Duration) -> u128 {
    d.as_micros()
}

/// The tokens that a refill puts in the bucket after `elapsed`
/// microseconds: `quantum` per full interval, at most `capacity`.
/// With an interval of zero the bucket is filled up at once.
pub open spec fn refill_amount(quantum: nat, capacity: nat, interval: nat, elapsed: nat) -> nat {
    if interval == 0 {
        capacity
    } else if quantum * elapsed / interval < capacity {
        quantum * elapsed / interval
    } else {
        capacity
    }
}

/// One decision of a token-bucket limiter `a` when the clock reads `now`
/// microseconds since its creation, answering `r` and leaving `b`.
pub open spec fn rate_limit_step(a: RateLimit, b: RateLimit, now: u64, r: bool) -> bool {
    let elapsed: nat = if now >= a.last_refill() {
        (now - a.last_refill()) as nat
    } else {
        0
    };
    &&& b.quantum() == a.quantum()
    &&& b.capacity() == a.capacity()
    &&& b.interval() == a.interval()
    &&& if a.tokens() >= 1 {
        r && b.tokens() == a.tokens() - 1 && b.last_refill() == a.last_refill()
    } else if elapsed < a.interval() {
        !r && b.tokens() == (if a.tokens() > i128::MIN {
            a.tokens() - 1
        } else {
            a.tokens()
        }) && b.last_refill() == a.last_refill()
    } else {
        r && b.tokens() == refill_amount(a.quantum(), a.capacity(), a.interval(), elapsed) - 1
            && b.last_refill() == now
    }
}

/// Token-bucket rate limiting: each kept item takes one token, and an
/// empty bucket is refilled in proportion to the time since the last
/// refill once at least one interval has passed.
#[derive(Debug)]
pub struct RateLimit {
    pub quantum: usize,
    pub capacity: usize,
    /// The refill period, in microseconds.
    pub interval: u64,
    tokens: i128,
    origin: Instant,
    /// Microseconds from `origin` to the last refill.
    last_refill: u64,
}

impl RateLimit {
    /// Tokens in the bucket; negative once callers have been turned away.
    pub closed spec fn quantum(&self) -> nat {
        self.quantum as nat
    }

    pub closed spec fn capacity(&self) -> nat {
        self.capacity as nat
    }

    /// The refill period, in microseconds.
    pub closed spec fn interval(&self) -> nat {
        self.interval as nat
    }

    pub closed spec fn tokens(&self) -> int {
        self.tokens as int
    }

    /// Microseconds from the limiter's creation to its last refill.
    pub closed spec fn last_refill(&self) -> nat {
        self.last_refill as nat
    }

    /// A limiter whose refill period is `interval` microseconds. The
    /// capacity is raised to `quantum` if it is below it, and the bucket
    /// starts with `quantum` tokens.
    pub fn with_interval_micros(quantum: usize, capacity: usize, interval: u64) -> (r: RateLimit)
        ensures
            r.quantum() == quantum,
            r.capacity() == if capacity < quantum { quantum } else { capacity },
            r.interval() == interval,
            r.tokens() == quantum as int,
            r.last_refill() == 0,
    {
        RateLimit {
            quantum,
            capacity: if capacity < quantum { quantum } else { capacity },
            interval,
            tokens: quantum as i128,
            origin: instant_now(),
            last_refill: 0,
        }
    }

    /// A limiter whose refill period is `interval`, counted in whole
    /// microseconds (saturating at `u64::MAX`).
    pub fn new(quantum: usize, capacity: usize, interval: std::time::Duration) -> (r: RateLimit)
        ensures
            r.quantum() == quantum,
            r.capacity() == if capacity < quantum { quantum } else { capacity },
            r.tokens() == quantum as int,
            r.last_refill() == 0,
    {
        let micros = duration_micros(&interval);
        let interval: u64 = if micros > u64::MAX as u128 { u64::MAX } else { micros as u64 };
        RateLimit::with_interval_micros(quantum, capacity, interval)
    }

    /// A limiter refilled every second.
    pub fn per_second(quantum: usize, capacity: usize) -> (r: RateLimit)
        ensures
            r.quantum() == quantum,
            r.capacity() == if capacity < quantum { quantum } else { capacity },
            r.interval() == 1_000_000,
            r.tokens() == quantum as int,
    {
        RateLimit::with_interval_micros(quantum, capacity, 1_000_000)
    }

    /// A limiter refilled every minute.
    pub fn per_minute(quantum: usize, capacity: usize) -> (r: RateLimit)
        ensures
            r.quantum() == quantum,
            r.capacity() == if capacity < quantum { quantum } else { capacity },
            r.interval() == 60_000_000,
            r.tokens() == quantum as int,
    {
        RateLimit::with_interval_micros(quantum, capacity, 60_000_000)
    }

    /// Decides on one item when the clock reads `now` microseconds since
    /// the limiter was created. A token is taken; if one was left the
    /// item is kept. Otherwise, before one full interval since the last
    /// refill the item is turned away; after it the bucket is refilled,
    /// this item's token is taken from the refill, and the item is kept.
    /// Holding the limiter exclusively, the refill cannot race another
    /// caller's, so it always takes effect.
    pub fn sample_at(&mut self, now: u64) -> (r: bool)
        ensures
            rate_limit_step(*old(self), *final(self), now, r),
    {
        if self.tokens >= 1 {
            self.tokens = self.tokens - 1;
            return true;
        }
        let elapsed: u64 = if now >= self.last_refill { now - self.last_refill } else { 0 };
        if elapsed < self.interval {
            if self.tokens > i128::MIN {
                self.tokens = self.tokens - 1;
            }
            false
        } else {
            let refill: u128 = if self.interval == 0 {
                self.capacity as u128
            } else {
                let q = self.quantum as u128;
                let e = elapsed as u128;
                assert(q * e <= u64::MAX as u128 * u64::MAX as u128) by (nonlinear_arith)
                    requires q <= u64::MAX, e <= u64::MAX;
                let p = q * e / (self.interval as u128);
                if p < self.capacity as u128 { p } else { self.capacity as u128 }
            };
            self.tokens = refill as i128 - 1;
            self.last_refill = now;
            true
        }
    }
}

impl<T> Sampler<T> for RateLimit {
    /// Some reading of the clock gives this decision.
    open spec fn decides(&self, next: &RateLimit, r: bool) -> bool {
        exists|now: u64| rate_limit_step(*self, *next, now, r)
    }

    /// Decides on one item at the current time, as `sample_at` does.
    fn sample(&mut self, item: &T) -> (r: bool)
        ensures
            final(self).quantum() == old(self).quantum(),
            final(self).capacity() == old(self).capacity(),
            final(self).interval() == old(self).interval(),
            old(self).tokens() >= 1 ==> r && final(self).tokens() == old(self).tokens() - 1,
            !r ==> final(self).last_refill() == old(self).last_refill(),
            !r ==> final(self).tokens() == (if old(self).tokens() > i128::MIN {
                old(self).tokens() - 1
            } else {
                old(self).tokens()
            }),
            r && old(self).tokens() < 1 ==> final(self).tokens() < final(self).capacity(),
    {
        let micros = micros_since(&self.origin);
        let now: u64 = if micros > u64::MAX as u128 { u64::MAX } else { micros as u64 };
        self.sample_at(now)
    }
}

} // verus!
