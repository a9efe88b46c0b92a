//! A token bucket that limits the rate of requests, and the delays between retries.
//!
//! Points in time are nanoseconds of one monotonic clock, whose readings the caller hands in.

use crate::outside;
use crate::types::Float64;
use vstd::prelude::*;

verus! {

/// Rate limit status of a provider.
#[derive(Debug, Clone, Copy, PartialEq, Eq, Structural)]
pub struct RateLimitStatus {
    /// Requests remaining.
    pub remaining: Option<u64>,
    /// Total requests allowed.
    pub limit: Option<u64>,
    /// Tokens remaining.
    pub tokens_remaining: Option<u64>,
    /// Tokens limit.
    pub tokens_limit: Option<u64>,
    /// Reset timestamp (Unix).
    pub reset_at: Option<u64>,
    /// Seconds after which to retry.
    pub retry_after: Option<u64>,
}

/// The status of a provider that reports no limits.
pub open spec fn unknown_status() -> RateLimitStatus {
    RateLimitStatus {
        remaining: None,
        limit: None,
        tokens_remaining: None,
        tokens_limit: None,
        reset_at: None,
        retry_after: None,
    }
}

impl RateLimitStatus {
    /// The status of a provider that reports no limits.
    pub fn unknown() -> (r: RateLimitStatus)
        ensures
            r == unknown_status(),
    {
        RateLimitStatus {
            remaining: None,
            limit: None,
            tokens_remaining: None,
            tokens_limit: None,
            reset_at: None,
            retry_after: None,
        }
    }
}

/// How fast a bucket is refilled.
#[derive(Debug, Clone, Copy, PartialEq, Eq, Structural)]
pub enum Pace {
    /// This many tokens each minute, evenly: part of a token is credited until it is whole.
    PerMinute(u64),
    /// This many tokens at a time, for each whole second.
    PerSecond(u64),
}

/// The pace of a limit of requests per minute: from sixty on, the whole tokens that a second has
/// room for; below that, where a second has room for none, by the minute.
pub open spec fn pace_for(requests_per_minute: u64) -> Pace {
    if requests_per_minute >= 60 {
        Pace::PerSecond((requests_per_minute / 60) as u64)
    } else {
        Pace::PerMinute(requests_per_minute)
    }
}

impl Pace {
    /// The tokens that this many nanoseconds bring. The credit is what was left of the time before
    /// them, in sixty-billionths of a token.
    pub open spec fn gain(self, credit: int, nanos: int) -> int {
        match self {
            Pace::PerMinute(n) => (credit + nanos * n) / 60_000_000_000,
            Pace::PerSecond(n) => nanos / 1_000_000_000 * n,
        }
    }

    /// The credit that is left once these tokens were added.
    pub open spec fn left(self, credit: int, nanos: int) -> int {
        match self {
            Pace::PerMinute(n) => (credit + nanos * n) % 60_000_000_000,
            Pace::PerSecond(_) => 0,
        }
    }
}

/// A token bucket.
#[derive(Debug)]
pub struct RateLimiter {
    rpm_limit: u64,
    token_bucket: u64,
    max_tokens: u64,
    pace: Pace,
    credit: u64,
    last_refill: u64,
}

/// What came of an attempt to get a token.
#[derive(Debug, Clone, Copy, PartialEq, Eq, Structural)]
pub enum AcquireStep {
    /// A token was taken.
    Acquired,
    /// The caller has waited for too long.
    TimedOut,
    /// Try again after this many milliseconds, or as soon as tokens are added.
    Wait(u64),
}

/// The nanoseconds from one moment to another; zero where the second is not the later one.
pub open spec fn nanos_between(last: u64, now: u64) -> int {
    if now >= last {
        now - last
    } else {
        0
    }
}

/// The lesser of two numbers.
pub open spec fn lesser(a: int, b: int) -> int {
    if a <= b {
        a
    } else {
        b
    }
}

/// The greater of two numbers.
pub open spec fn greater(a: int, b: int) -> int {
    if a >= b {
        a
    } else {
        b
    }
}

/// The product, or the greatest word where it goes out of range.
fn saturating_product(a: u64, b: u64) -> (r: u64)
    ensures
        r == lesser(a * b, u64::MAX as int),
{
    match a.checked_mul(b) {
        Some(p) => p,
        None => u64::MAX,
    }
}

impl RateLimiter {
    /// The limit of requests per minute.
    pub closed spec fn rpm(&self) -> u64 {
        self.rpm_limit
    }

    /// The tokens in the bucket.
    pub closed spec fn tokens(&self) -> u64 {
        self.token_bucket
    }

    /// The capacity of the bucket.
    pub closed spec fn capacity(&self) -> u64 {
        self.max_tokens
    }

    /// How fast the bucket is refilled.
    pub closed spec fn pace(&self) -> Pace {
        self.pace
    }

    /// The part of a token that is credited, in sixty-billionths.
    pub closed spec fn credit(&self) -> u64 {
        self.credit
    }

    /// The moment of the last refill.
    pub closed spec fn refilled_at(&self) -> u64 {
        self.last_refill
    }

    /// The bucket holds no more than its capacity, and less than a token is credited. A pace by the
    /// minute is the limit of requests per minute, which is below sixty; one by the second adds
    /// something.
    pub open spec fn wf(&self) -> bool {
        &&& self.tokens() <= self.capacity()
        &&& self.credit() < 60_000_000_000
        &&& match self.pace() {
            Pace::PerMinute(n) => n == self.rpm() && n < 60,
            Pace::PerSecond(n) => n >= 1 && self.credit() == 0,
        }
    }

    /// The tokens that the time from the last refill to this moment brings.
    pub open spec fn gain(&self, now: u64) -> int {
        self.pace().gain(self.credit() as int, nanos_between(self.refilled_at(), now))
    }

    /// The tokens in the bucket at this moment: what the time since the last refill brings is
    /// added, up to the capacity.
    pub open spec fn tokens_at(&self, now: u64) -> int {
        lesser(self.capacity() as int, self.tokens() + self.gain(now))
    }

    /// The credit once the bucket was refilled at this moment.
    pub open spec fn credit_by(&self, now: u64) -> int {
        self.pace().left(self.credit() as int, nanos_between(self.refilled_at(), now))
    }

    /// The moment of the last refill once the bucket was refilled at this moment: this moment,
    /// unless it lies back or, with a pace by the second, not even a second has passed.
    pub open spec fn refilled_at_by(&self, now: u64) -> u64 {
        let nanos = nanos_between(self.refilled_at(), now);
        if nanos == 0 || (self.pace() is PerSecond && nanos < 1_000_000_000) {
            self.refilled_at()
        } else {
            now
        }
    }

    /// The limits are those of `other`.
    pub open spec fn same_limits(&self, other: &RateLimiter) -> bool {
        &&& self.rpm() == other.rpm()
        &&& self.capacity() == other.capacity()
        &&& self.pace() == other.pace()
    }

    /// An attempt at this moment to take a token makes `after` of the bucket; `taken` says whether
    /// there was one.
    pub open spec fn tried(&self, after: &RateLimiter, now: u64, taken: bool) -> bool {
        &&& after.wf()
        &&& after.same_limits(self)
        &&& after.refilled_at() == self.refilled_at_by(now)
        &&& after.credit() == self.credit_by(now)
        &&& taken == (self.tokens_at(now) > 0)
        &&& after.tokens() == self.tokens_at(now) - (if taken {
            1int
        } else {
            0
        })
    }

    /// The milliseconds that a token takes, but at least one and at most a thousand.
    pub open spec fn wait_ms(&self) -> int {
        match self.pace() {
            Pace::PerMinute(_) => 1000,
            Pace::PerSecond(n) => lesser(greater((1000u64 / n) as int, 1), 1000),
        }
    }

    /// A full bucket for this many requests per minute.
    pub fn new(requests_per_minute: u64, now: u64) -> (r: RateLimiter)
        ensures
            r.wf(),
            r.rpm() == requests_per_minute,
            r.tokens() == requests_per_minute,
            r.capacity() == requests_per_minute,
            r.pace() == pace_for(requests_per_minute),
            r.credit() == 0,
            r.refilled_at() == now,
    {
        RateLimiter {
            rpm_limit: requests_per_minute,
            token_bucket: requests_per_minute,
            max_tokens: requests_per_minute,
            pace: if requests_per_minute >= 60 {
                Pace::PerSecond(requests_per_minute / 60)
            } else {
                Pace::PerMinute(requests_per_minute)
            },
            credit: 0,
            last_refill: now,
        }
    }

    /// A full bucket with this capacity and this many tokens added each second, at least one.
    pub fn with_tokens(max_tokens: u64, refill_rate_per_sec: u64, now: u64) -> (r: RateLimiter)
        ensures
            r.wf(),
            r.rpm() == lesser(max_tokens * 60, u64::MAX as int) / greater(
                refill_rate_per_sec as int,
                1,
            ),
            r.tokens() == max_tokens,
            r.capacity() == max_tokens,
            r.pace() == Pace::PerSecond(greater(refill_rate_per_sec as int, 1) as u64),
            r.credit() == 0,
            r.refilled_at() == now,
    {
        let rate: u64 = if refill_rate_per_sec >= 1 {
            refill_rate_per_sec
        } else {
            1
        };
        let rpm: u64 = saturating_product(max_tokens, 60) / rate;
        RateLimiter {
            rpm_limit: rpm,
            token_bucket: max_tokens,
            max_tokens,
            pace: Pace::PerSecond(rate),
            credit: 0,
            last_refill: now,
        }
    }

    /// Takes one token where there is one.
    pub fn try_acquire(&mut self, now: u64) -> (r: bool)
        requires
            old(self).wf(),
        ensures
            old(self).tried(final(self), now, r),
    {
        self.refill(now);
        self.try_consume()
    }

    /// One round of waiting for a token, `waited` nanoseconds after the first.
    pub fn acquire_step(&mut self, now: u64, waited: u64) -> (r: AcquireStep)
        requires
            old(self).wf(),
        ensures
            old(self).tried(final(self), now, r == AcquireStep::Acquired),
            r == AcquireStep::TimedOut <==> old(self).tokens_at(now) == 0 && waited > 60
                * 1_000_000_000,
            r matches AcquireStep::Wait(ms) ==> ms == old(self).wait_ms() && 1 <= ms <= 1000,
    {
        self.refill(now);
        if self.try_consume() {
            return AcquireStep::Acquired;
        }
        if waited > 60_000_000_000 {
            return AcquireStep::TimedOut;
        }
        let per_token: u64 = match self.pace {
            Pace::PerMinute(_) => 1000,
            Pace::PerSecond(n) => 1000 / n,
        };
        AcquireStep::Wait(
            if per_token < 1 {
                1
            } else if per_token > 1000 {
                1000
            } else {
                per_token
            },
        )
    }

    /// The status at this moment.
    pub fn status(&mut self, now: u64) -> (r: RateLimitStatus)
        requires
            old(self).wf(),
        ensures
            final(self).wf(),
            final(self).same_limits(old(self)),
            final(self).refilled_at() == old(self).refilled_at_by(now),
            final(self).credit() == old(self).credit_by(now),
            final(self).tokens() == old(self).tokens_at(now),
            r == (RateLimitStatus {
                remaining: Some(final(self).tokens()),
                limit: Some(old(self).capacity()),
                tokens_remaining: Some(final(self).tokens()),
                tokens_limit: Some(old(self).capacity()),
                reset_at: None,
                retry_after: None,
            }),
    {
        self.refill(now);
        RateLimitStatus {
            remaining: Some(self.token_bucket),
            limit: Some(self.max_tokens),
            tokens_remaining: Some(self.token_bucket),
            tokens_limit: Some(self.max_tokens),
            reset_at: None,
            retry_after: None,
        }
    }

    /// Fills the bucket.
    pub fn reset(&mut self, now: u64)
        requires
            old(self).wf(),
        ensures
            final(self).wf(),
            final(self).same_limits(old(self)),
            final(self).tokens() == old(self).capacity(),
            final(self).refilled_at() == now,
            final(self).credit() == 0,
    {
        self.token_bucket = self.max_tokens;
        self.last_refill = now;
        self.credit = 0;
    }

    fn try_consume(&mut self) -> (r: bool)
        requires
            old(self).wf(),
        ensures
            final(self).wf(),
            final(self).same_limits(old(self)),
            final(self).refilled_at() == old(self).refilled_at(),
            final(self).credit() == old(self).credit(),
            r == (old(self).tokens() > 0),
            final(self).tokens() == old(self).tokens() - (if r {
                1int
            } else {
                0
            }),
    {
        if self.token_bucket == 0 {
            false
        } else {
            self.token_bucket = self.token_bucket - 1;
            true
        }
    }

    /// Adds the tokens for the time since the last refill. Gives whether there are more than
    /// before, so that those who wait can try again.
    pub fn refill(&mut self, now: u64) -> (r: bool)
        requires
            old(self).wf(),
        ensures
            final(self).wf(),
            final(self).same_limits(old(self)),
            final(self).refilled_at() == old(self).refilled_at_by(now),
            final(self).credit() == old(self).credit_by(now),
            final(self).tokens() == old(self).tokens_at(now),
            r == (final(self).tokens() > old(self).tokens()),
    {
        let nanos: u64 = if now >= self.last_refill {
            now - self.last_refill
        } else {
            0
        };
        let gained: u128 = match self.pace {
            Pace::PerMinute(n) => {
                proof {
                    lemma_product_bound(nanos, n);
                }
                let whole: u128 = self.credit as u128 + nanos as u128 * n as u128;
                self.credit = (whole % 60_000_000_000) as u64;
                whole / 60_000_000_000
            },
            Pace::PerSecond(n) => {
                let seconds: u64 = nanos / 1_000_000_000;
                if seconds == 0 {
                    return false;
                }
                proof {
                    lemma_product_bound(seconds, n);
                }
                seconds as u128 * n as u128
            },
        };
        if nanos > 0 {
            self.last_refill = now;
        }
        let current: u64 = self.token_bucket;
        let room: u64 = self.max_tokens - current;
        self.token_bucket = if gained < room as u128 {
            current + gained as u64
        } else {
            self.max_tokens
        };
        self.token_bucket > current
    }
}

proof fn lemma_product_bound(a: u64, b: u64)
    ensures
        0 <= a * b <= 0xffff_ffff_ffff_ffff * 0xffff_ffff_ffff_ffff,
{
    assert(0 <= a * b <= 0xffff_ffff_ffff_ffff * 0xffff_ffff_ffff_ffff) by (nonlinear_arith)
        requires
            0 <= a <= 0xffff_ffff_ffff_ffff,
            0 <= b <= 0xffff_ffff_ffff_ffff,
    ;
}

/// What time brings is never negative.
proof fn lemma_gain_nonnegative(pace: Pace, credit: int, nanos: int)
    requires
        credit >= 0,
        nanos >= 0,
    ensures
        pace.gain(credit, nanos) >= 0,
{
    match pace {
        Pace::PerMinute(n) => {
            assert(nanos * n >= 0) by (nonlinear_arith)
                requires
                    nanos >= 0,
                    n >= 0,
            ;
        },
        Pace::PerSecond(n) => {
            assert(nanos / 1_000_000_000 * n >= 0) by (nonlinear_arith)
                requires
                    nanos >= 0,
                    n >= 0,
            ;
        },
    }
}

/// The bucket never holds more than its capacity, and time takes nothing from it.
pub proof fn law_bucket_bounded(l: &RateLimiter, now: u64)
    requires
        l.wf(),
    ensures
        l.tokens() <= l.tokens_at(now) <= l.capacity(),
{
    lemma_gain_nonnegative(l.pace(), l.credit() as int, nanos_between(l.refilled_at(), now));
}

/// With a pace by the second nothing is added within a second of the last refill.
pub proof fn law_no_refill_within_a_second(l: &RateLimiter, now: u64)
    requires
        l.wf(),
        l.pace() is PerSecond,
        now < l.refilled_at() + 1_000_000_000,
    ensures
        l.tokens_at(now) == l.tokens(),
        l.refilled_at_by(now) == l.refilled_at(),
{
    let rate = l.pace()->PerSecond_0;
    assert(0 * rate == 0) by (nonlinear_arith);
    assert(nanos_between(l.refilled_at(), now) / 1_000_000_000 == 0);
}

/// An empty bucket that could hold a token has one again after a second where the pace is by the
/// second, and after the share of a minute that a token takes where it is by the minute.
pub proof fn law_token_comes_in_time(l: &RateLimiter, now: u64)
    requires
        l.wf(),
        l.capacity() >= 1,
        now >= l.refilled_at(),
        match l.pace() {
            Pace::PerMinute(n) => (now - l.refilled_at()) * n >= 60_000_000_000,
            Pace::PerSecond(_) => now - l.refilled_at() >= 1_000_000_000,
        },
    ensures
        l.tokens_at(now) >= 1,
{
    match l.pace() {
        Pace::PerMinute(_) => {},
        Pace::PerSecond(n) => {
            let seconds = nanos_between(l.refilled_at(), now) / 1_000_000_000;
            assert(seconds * n >= 1) by (nonlinear_arith)
                requires
                    seconds >= 1,
                    n >= 1,
            ;
        },
    }
}

/// How many of some attempts succeeded.
pub open spec fn successes(taken: Seq<bool>) -> int
    decreases taken.len(),
{
    if taken.len() == 0 {
        0
    } else {
        successes(taken.drop_last()) + (if taken.last() {
            1int
        } else {
            0
        })
    }
}

/// The buckets follow one another by attempts at these moments, each of which is no earlier than
/// the one before it and than the last refill.
pub open spec fn attempts_follow(
    buckets: Seq<RateLimiter>,
    moments: Seq<u64>,
    taken: Seq<bool>,
) -> bool {
    &&& buckets.len() == moments.len() + 1
    &&& taken.len() == moments.len()
    &&& buckets[0].wf()
    &&& forall|i: int|
        0 <= i < moments.len() ==> buckets[i].tried(
            &buckets[i + 1],
            moments[i],
            #[trigger] taken[i],
        )
    &&& forall|i: int, j: int| 0 <= i <= j < moments.len() ==> moments[i] <= moments[j]
    &&& moments.len() > 0 ==> buckets[0].refilled_at() <= moments[0]
}

/// What two spans of time bring, one after the other, is no more than what they bring together.
proof fn lemma_gains_add_up(pace: Pace, credit: int, first: int, second: int)
    requires
        credit >= 0,
        first >= 0,
        second >= 0,
    ensures
        pace.gain(credit, first) + pace.gain(pace.left(credit, first), second) <= pace.gain(
            credit,
            first + second,
        ),
        pace.left(pace.left(credit, first), second) == pace.left(credit, first + second),
{
    match pace {
        Pace::PerMinute(n) => {
            assert((first + second) * n == first * n + second * n) by (nonlinear_arith);
            assert(first * n >= 0 && second * n >= 0) by (nonlinear_arith)
                requires
                    first >= 0,
                    second >= 0,
                    n >= 0,
            ;
        },
        Pace::PerSecond(n) => {
            let a = first / 1_000_000_000;
            let b = second / 1_000_000_000;
            let c = (first + second) / 1_000_000_000;
            assert(a * n + b * n <= c * n) by (nonlinear_arith)
                requires
                    a + b <= c,
                    n >= 0,
            ;
        },
    }
}

proof fn lemma_tokens_accounted(
    buckets: Seq<RateLimiter>,
    moments: Seq<u64>,
    taken: Seq<bool>,
    n: int,
)
    requires
        attempts_follow(buckets, moments, taken),
        0 <= n <= moments.len(),
    ensures
        buckets[n].wf(),
        buckets[n].same_limits(&buckets[0]),
        buckets[0].refilled_at() <= buckets[n].refilled_at(),
        n > 0 ==> buckets[n].refilled_at() <= moments[n - 1],
        n == 0 ==> buckets[n].refilled_at() == buckets[0].refilled_at(),
        buckets[n].credit() == buckets[0].credit_by(buckets[n].refilled_at()),
        successes(taken.take(n)) + buckets[n].tokens() <= buckets[0].tokens() + buckets[0].gain(
            buckets[n].refilled_at(),
        ),
    decreases n,
{
    let first = buckets[0];
    if n > 0 {
        lemma_tokens_accounted(buckets, moments, taken, n - 1);
        let before = buckets[n - 1];
        let after = buckets[n];
        let now = moments[n - 1];
        assert(before.tried(&after, now, taken[n - 1]));
        if n > 1 {
            assert(moments[n - 2] <= moments[n - 1]);
        }
        assert(taken.take(n).drop_last() =~= taken.take(n - 1));
        lemma_gains_add_up(
            first.pace(),
            first.credit() as int,
            nanos_between(first.refilled_at(), before.refilled_at()),
            nanos_between(before.refilled_at(), after.refilled_at()),
        );
        lemma_unmoved_refill(before, now);
    } else {
        assert(taken.take(0) =~= Seq::empty());
        lemma_unmoved_refill(first, first.refilled_at());
    }
}

/// A refill that does not move the moment of the last refill adds nothing.
proof fn lemma_unmoved_refill(l: RateLimiter, now: u64)
    requires
        l.wf(),
    ensures
        l.refilled_at_by(now) == l.refilled_at() ==> l.gain(now) == 0 && l.credit_by(now)
            == l.credit(),
        l.gain(l.refilled_at_by(now)) == l.gain(now),
        l.credit_by(l.refilled_at_by(now)) == l.credit_by(now),
{
    let nanos = nanos_between(l.refilled_at(), now);
    match l.pace() {
        Pace::PerMinute(n) => {
            assert(0 * n == 0) by (nonlinear_arith);
        },
        Pace::PerSecond(n) => {
            assert(0 * n == 0) by (nonlinear_arith);
            if nanos < 1_000_000_000 {
                assert(nanos / 1_000_000_000 == 0);
            }
        },
    }
}

/// The rate is limited: of any attempts in a row no more succeed than the bucket held tokens at
/// first and gains up to the last of them.
pub proof fn law_rate_limited(buckets: Seq<RateLimiter>, moments: Seq<u64>, taken: Seq<bool>)
    requires
        attempts_follow(buckets, moments, taken),
        moments.len() > 0,
    ensures
        successes(taken) <= buckets[0].tokens() + buckets[0].gain(moments.last()),
        successes(taken) <= buckets[0].capacity() + buckets[0].gain(moments.last()),
{
    let n = moments.len() as int;
    let first = buckets[0];
    let last = buckets[n].refilled_at();
    lemma_tokens_accounted(buckets, moments, taken, n);
    assert(taken.take(n) =~= taken);
    let early = nanos_between(first.refilled_at(), last);
    let late = nanos_between(last, moments.last());
    lemma_gains_add_up(first.pace(), first.credit() as int, early, late);
    lemma_gain_nonnegative(
        first.pace(),
        first.pace().left(first.credit() as int, early),
        late,
    );
}

/// Requests per minute are capped: of any attempts in the minute after a refill, once the bucket
/// was emptied, no more succeed than the limit of requests per minute; and where the bucket still
/// held tokens, no more than the limit and those.
pub proof fn law_capped_per_minute(buckets: Seq<RateLimiter>, moments: Seq<u64>, taken: Seq<bool>)
    requires
        attempts_follow(buckets, moments, taken),
        moments.len() > 0,
        buckets[0].pace() == pace_for(buckets[0].rpm()),
        moments.last() <= buckets[0].refilled_at() + 60_000_000_000,
    ensures
        buckets[0].tokens() == 0 ==> successes(taken) <= buckets[0].rpm(),
        successes(taken) <= buckets[0].tokens() + buckets[0].rpm(),
{
    law_rate_limited(buckets, moments, taken);
    let first = buckets[0];
    let rpm = first.rpm();
    let nanos = nanos_between(first.refilled_at(), moments.last());
    match first.pace() {
        Pace::PerMinute(_) => {
            assert(nanos * rpm <= 60_000_000_000 * rpm) by (nonlinear_arith)
                requires
                    nanos <= 60_000_000_000,
                    rpm >= 0,
            ;
        },
        Pace::PerSecond(n) => {
            let seconds = nanos / 1_000_000_000;
            assert(seconds * n <= 60 * n) by (nonlinear_arith)
                requires
                    seconds <= 60,
                    n >= 0,
            ;
        },
    }
}

/// A bucket that adds whole tokens each second holds, some whole seconds after its last refill,
/// what it held and what these seconds bring, up to its capacity. Within the first second neither
/// the tokens nor the moment of the last refill change; after it that moment is now.
pub proof fn law_refill_by_whole_seconds(l: &RateLimiter, now: u64)
    requires
        l.wf(),
        l.pace() is PerSecond,
        now >= l.refilled_at(),
    ensures
        ({
            let seconds = (now - l.refilled_at()) / 1_000_000_000;
            &&& l.tokens_at(now) == lesser(
                l.capacity() as int,
                l.tokens() + seconds * l.pace()->PerSecond_0,
            )
            &&& seconds == 0 ==> l.tokens_at(now) == l.tokens() && l.refilled_at_by(now)
                == l.refilled_at()
            &&& seconds > 0 ==> l.refilled_at_by(now) == now
        }),
{
    if now < l.refilled_at() + 1_000_000_000 {
        law_no_refill_within_a_second(l, now);
    }
}

/// Errors of the rate limiter.
#[derive(Debug, Clone, Copy, PartialEq, Eq, Structural)]
pub enum RateLimitError {
    Exceeded,
    Timeout,
}

impl RateLimitError {
    /// The error as it is displayed.
    pub fn display(&self) -> (r: &'static str)
        ensures
            r@ == (match *self {
                RateLimitError::Exceeded => "Rate limit exceeded"@,
                RateLimitError::Timeout => "Timeout waiting for rate limit"@,
            }),
    {
        match self {
            RateLimitError::Exceeded => "Rate limit exceeded",
            RateLimitError::Timeout => "Timeout waiting for rate limit",
        }
    }
}

/// How the delays between retries grow.
#[derive(Debug, Clone, Copy, PartialEq, Eq, Structural)]
pub enum RetryStrategy {
    /// Exponential backoff: initial delay, maximum delay, multiplier, maximum number of retries.
    Exponential { initial_delay_ms: u64, max_delay_ms: u64, multiplier: Float64, max_retries: u32 },
    /// Linear backoff: delay, maximum number of retries.
    Linear { delay_ms: u64, max_retries: u32 },
    /// Fixed delay: delay, maximum number of retries.
    Fixed { delay_ms: u64, max_retries: u32 },
}

/// The strategy that is used where none is chosen: from one second, doubling, to one minute, five
/// times.
pub open spec fn default_strategy() -> RetryStrategy {
    RetryStrategy::Exponential {
        initial_delay_ms: 1000,
        max_delay_ms: 60000,
        multiplier: Float64 { bits: 0x4000_0000_0000_0000 },
        max_retries: 5,
    }
}

impl Default for RetryStrategy {
    fn default() -> (r: RetryStrategy)
        ensures
            r == default_strategy(),
    {
        RetryStrategy::Exponential {
            initial_delay_ms: 1000,
            max_delay_ms: 60000,
            multiplier: Float64 { bits: 0x4000_0000_0000_0000 },
            max_retries: 5,
        }
    }
}

impl RetryStrategy {
    /// The maximum number of retries.
    pub open spec fn limit(self) -> u32 {
        match self {
            RetryStrategy::Exponential { max_retries, .. } => max_retries,
            RetryStrategy::Linear { max_retries, .. } => max_retries,
            RetryStrategy::Fixed { max_retries, .. } => max_retries,
        }
    }

    /// The delay before a retry, in milliseconds. With exponential backoff `scaled_ms` is the
    /// initial delay times the multiplier to the power of `attempt`.
    pub open spec fn delay(self, attempt: u32, scaled_ms: u64) -> int {
        match self {
            RetryStrategy::Exponential { max_delay_ms, .. } => lesser(
                scaled_ms as int,
                max_delay_ms as int,
            ),
            RetryStrategy::Linear { delay_ms, max_retries } => lesser(
                delay_ms * greater(max_retries - attempt, 0),
                u64::MAX as int,
            ),
            RetryStrategy::Fixed { delay_ms, .. } => delay_ms as int,
        }
    }

    /// The maximum number of retries.
    pub fn max_retries(&self) -> (r: u32)
        ensures
            r == self.limit(),
    {
        match self {
            RetryStrategy::Exponential { max_retries, .. } => *max_retries,
            RetryStrategy::Linear { max_retries, .. } => *max_retries,
            RetryStrategy::Fixed { max_retries, .. } => *max_retries,
        }
    }

    /// The delay before a retry, in milliseconds.
    pub fn delay_for_attempt(&self, attempt: u32, scaled_ms: u64) -> (r: u64)
        ensures
            r == self.delay(attempt, scaled_ms),
    {
        match self {
            RetryStrategy::Exponential { max_delay_ms, .. } => if scaled_ms <= *max_delay_ms {
                scaled_ms
            } else {
                *max_delay_ms
            },
            RetryStrategy::Linear { delay_ms, max_retries } => {
                let remaining: u32 = max_retries.saturating_sub(attempt);
                saturating_product(*delay_ms, remaining as u64)
            },
            RetryStrategy::Fixed { delay_ms, .. } => *delay_ms,
        }
    }
}

/// Retry configuration: backoff strategy and jitter.
#[derive(Debug, Clone)]
pub struct RetryConfig {
    /// The strategy.
    pub strategy: RetryStrategy,
    /// Whether random jitter is added to the delays.
    pub jitter: bool,
    /// The share of a delay that is randomised.
    pub jitter_factor: Float64,
    /// The time to spend on retries at most, in seconds.
    pub max_total_time_sec: u64,
    /// HTTP status codes that call for a retry.
    pub retry_on_status: Vec<u16>,
}

impl Default for RetryConfig {
    fn default() -> (r: RetryConfig)
        ensures
            r.strategy == default_strategy(),
            r.jitter,
            r.jitter_factor == (Float64 { bits: 0x3FB9_9999_9999_999A }),
            r.max_total_time_sec == 300,
            r.retry_on_status@ == seq![429u16, 500, 502, 503, 504],
    {
        RetryConfig {
            strategy: RetryStrategy::default(),
            jitter: true,
            jitter_factor: Float64 { bits: 0x3FB9_9999_9999_999A },
            max_total_time_sec: 300,
            retry_on_status: vec![429, 500, 502, 503, 504],
        }
    }
}

/// The state of the retries of one operation.
#[derive(Debug)]
pub struct RetryPolicy {
    config: RetryConfig,
    current_attempt: u32,
    last_delay_ms: u64,
    total_elapsed_ms: u64,
}

/// A delay with jitter: a random word, reduced to the range, is added to it.
pub open spec fn jittered(config: RetryConfig, delay: int, range: u64, random: u64) -> int {
    if config.jitter && range > 0 {
        lesser(delay + random % range, u64::MAX as int)
    } else {
        delay
    }
}

/// The greatest delay that jitter can make of a delay.
pub open spec fn most_jittered(config: RetryConfig, delay: int, range: u64) -> int {
    if config.jitter && range > 0 {
        lesser(delay + range - 1, u64::MAX as int)
    } else {
        delay
    }
}

impl RetryPolicy {
    /// The configuration.
    pub closed spec fn settings(&self) -> RetryConfig {
        self.config
    }

    /// The number of retries so far.
    pub closed spec fn attempts(&self) -> u32 {
        self.current_attempt
    }

    /// The delay that was computed last.
    pub closed spec fn last_delay(&self) -> u64 {
        self.last_delay_ms
    }

    /// All delays so far together.
    pub closed spec fn elapsed(&self) -> u64 {
        self.total_elapsed_ms
    }

    /// There were no more retries than the strategy allows.
    pub open spec fn wf(&self) -> bool {
        self.attempts() <= self.settings().strategy.limit()
    }

    /// Another retry is allowed by number.
    pub open spec fn may_retry(&self) -> bool {
        self.attempts() < self.settings().strategy.limit()
    }

    /// The next delay without jitter.
    pub open spec fn base_delay(&self, scaled_ms: u64) -> int {
        self.settings().strategy.delay(self.attempts(), scaled_ms)
    }

    /// The sum of the delays stays in range whatever the jitter is.
    pub open spec fn room_for_delay(&self, scaled_ms: u64, jitter_range: u64) -> bool {
        self.may_retry() ==> {
            &&& self.elapsed() + most_jittered(
                self.settings(),
                self.base_delay(scaled_ms),
                jitter_range,
            ) <= u64::MAX
            &&& self.settings().max_total_time_sec * 1000 <= u64::MAX
        }
    }

    /// What a random word makes of the state and of the next delay.
    pub open spec fn advanced(
        &self,
        after: &RetryPolicy,
        r: Option<u64>,
        scaled_ms: u64,
        jitter_range: u64,
        random: u64,
    ) -> bool {
        let delay = jittered(
            self.settings(),
            self.base_delay(scaled_ms),
            jitter_range,
            random,
        );
        &&& after.settings() == self.settings()
        &&& !self.may_retry() ==> r is None && after.attempts() == self.attempts()
            && after.elapsed() == self.elapsed() && after.last_delay() == self.last_delay()
        &&& self.may_retry() ==> {
            &&& after.elapsed() == self.elapsed() + delay
            &&& after.last_delay() == delay
            &&& if self.elapsed() + delay >= self.settings().max_total_time_sec * 1000 {
                r is None && after.attempts() == self.attempts()
            } else {
                r == Some(after.last_delay()) && after.attempts() == self.attempts() + 1
            }
        }
    }

    /// The policy for a new operation.
    pub fn new(config: RetryConfig) -> (r: RetryPolicy)
        ensures
            r.wf(),
            r.settings() == config,
            r.attempts() == 0,
            r.last_delay() == 0,
            r.elapsed() == 0,
    {
        RetryPolicy { config, current_attempt: 0, last_delay_ms: 0, total_elapsed_ms: 0 }
    }

    /// Starts over for a new operation.
    pub fn reset(&mut self)
        ensures
            final(self).wf(),
            final(self).settings() == old(self).settings(),
            final(self).attempts() == 0,
            final(self).last_delay() == 0,
            final(self).elapsed() == 0,
    {
        self.current_attempt = 0;
        self.last_delay_ms = 0;
        self.total_elapsed_ms = 0;
    }

    /// The configuration.
    pub fn config(&self) -> (r: &RetryConfig)
        ensures
            *r == self.settings(),
    {
        &self.config
    }

    /// The next delay without jitter, where another retry is allowed.
    pub fn upcoming_delay(&self, scaled_ms: u64) -> (r: Option<u64>)
        ensures
            match r {
                Some(d) => self.may_retry() && d == self.base_delay(scaled_ms),
                None => !self.may_retry(),
            },
    {
        if self.current_attempt >= self.config.strategy.max_retries() {
            None
        } else {
            Some(self.config.strategy.delay_for_attempt(self.current_attempt, scaled_ms))
        }
    }

    /// Whether the sum of the delays stays in range whatever the jitter is.
    pub fn can_advance(&self, scaled_ms: u64, jitter_range: u64) -> (r: bool)
        ensures
            r == self.room_for_delay(scaled_ms, jitter_range),
    {
        match self.upcoming_delay(scaled_ms) {
            Some(d) => {
                let most: u64 = if self.config.jitter && jitter_range > 0 {
                    d.saturating_add(jitter_range - 1)
                } else {
                    d
                };
                most <= u64::MAX - self.total_elapsed_ms && self.config.max_total_time_sec
                    <= u64::MAX / 1000
            },
            None => true,
        }
    }

    /// The delay before the next retry, in milliseconds; nothing where no retry is left. The
    /// jitter comes from chance.
    pub fn next_delay(&mut self, scaled_ms: u64, jitter_range: u64) -> (r: Option<u64>)
        requires
            old(self).wf(),
            old(self).room_for_delay(scaled_ms, jitter_range),
        ensures
            final(self).wf(),
            exists|random: u64|
                #[trigger] old(self).advanced(final(self), r, scaled_ms, jitter_range, random),
    {
        let random: u64 = outside::random_word();
        self.next_delay_with(scaled_ms, jitter_range, random)
    }

    /// The delay before the next retry with this random word.
    pub fn next_delay_with(&mut self, scaled_ms: u64, jitter_range: u64, random: u64) -> (r: Option<
        u64,
    >)
        requires
            old(self).wf(),
            old(self).room_for_delay(scaled_ms, jitter_range),
        ensures
            final(self).wf(),
            old(self).advanced(final(self), r, scaled_ms, jitter_range, random),
    {
        let delay_ms: u64 = match self.upcoming_delay(scaled_ms) {
            Some(d) => d,
            None => return None,
        };
        let with_jitter: u64 = if self.config.jitter && jitter_range > 0 {
            let jitter: u64 = random % jitter_range;
            delay_ms.saturating_add(jitter)
        } else {
            delay_ms
        };
        self.last_delay_ms = with_jitter;
        self.total_elapsed_ms = self.total_elapsed_ms + with_jitter;
        if self.total_elapsed_ms >= self.config.max_total_time_sec * 1000 {
            return None;
        }
        self.current_attempt = self.current_attempt + 1;
        Some(with_jitter)
    }

    /// The number of retries so far.
    pub fn attempt(&self) -> (r: u32)
        ensures
            r == self.attempts(),
    {
        self.current_attempt
    }

    /// Whether a status code calls for a retry.
    pub fn should_retry_on_status(&self, status: u16) -> (r: bool)
        ensures
            r == self.settings().retry_on_status@.contains(status),
    {
        let mut i: usize = 0;
        while i < self.config.retry_on_status.len()
            invariant
                i <= self.config.retry_on_status@.len(),
                forall|j: int| 0 <= j < i ==> self.config.retry_on_status@[j] != status,
            decreases self.config.retry_on_status@.len() - i,
        {
            if self.config.retry_on_status[i] == status {
                return true;
            }
            i = i + 1;
        }
        false
    }

    /// The number of retries that are left.
    pub fn remaining_retries(&self) -> (r: u32)
        requires
            self.wf(),
        ensures
            r + self.attempts() == self.settings().strategy.limit(),
    {
        self.config.strategy.max_retries().saturating_sub(self.current_attempt)
    }
}

/// With exponential backoff no delay exceeds the maximum.
pub proof fn law_exponential_delay_capped(
    initial_delay_ms: u64,
    max_delay_ms: u64,
    multiplier: Float64,
    max_retries: u32,
    attempt: u32,
    scaled_ms: u64,
)
    ensures
        (RetryStrategy::Exponential {
            initial_delay_ms,
            max_delay_ms,
            multiplier,
            max_retries,
        }).delay(attempt, scaled_ms) <= max_delay_ms,
{
}

/// Jitter only lengthens a delay, and by less than its range.
pub proof fn law_jitter_bounded(config: RetryConfig, delay: u64, range: u64, random: u64)
    ensures
        delay <= jittered(config, delay as int, range, random) <= most_jittered(
            config,
            delay as int,
            range,
        ),
        jittered(config, delay as int, range, random) <= delay + range,
{
}

/// Each delay that is handed out uses up one retry, and the delays so far stay below the time
/// that may be spent: so there are never more delays than the strategy allows retries.
pub proof fn law_delay_uses_a_retry(
    before: &RetryPolicy,
    after: &RetryPolicy,
    delay: u64,
    scaled_ms: u64,
    jitter_range: u64,
    random: u64,
)
    requires
        before.wf(),
        before.advanced(after, Some(delay), scaled_ms, jitter_range, random),
    ensures
        after.attempts() == before.attempts() + 1,
        after.attempts() <= before.settings().strategy.limit(),
        after.elapsed() < before.settings().max_total_time_sec * 1000,
{
}

/// The lesser of two numbers is one of them and at most both; the greater is one of them and at
/// least both.
pub proof fn law_lesser_and_greater(a: int, b: int)
    ensures
        lesser(a, b) <= a,
        lesser(a, b) <= b,
        lesser(a, b) == a || lesser(a, b) == b,
        greater(a, b) >= a,
        greater(a, b) >= b,
        greater(a, b) == a || greater(a, b) == b,
{
}

/// A limit of at least sixty requests a minute is a sixtieth of it, rounded down, each second; a
/// smaller one is spread over the minute.
pub proof fn law_paces(requests_per_minute: u64)
    ensures
        requests_per_minute < 60 ==> pace_for(requests_per_minute) == Pace::PerMinute(
            requests_per_minute,
        ),
        requests_per_minute >= 60 ==> (pace_for(requests_per_minute) matches Pace::PerSecond(n) && n
            * 60 <= requests_per_minute < (n + 1) * 60),
{
}

/// No token and no part of one is lost or made up: by a pace per minute, what the bucket holds and
/// what is credited grow by the share of the minute that has passed, until the bucket is full.
pub proof fn law_refill_by_the_minute(l: &RateLimiter, now: u64, n: u64)
    requires
        l.wf(),
        l.pace() == Pace::PerMinute(n),
        now >= l.refilled_at(),
    ensures
        0 <= l.credit_by(now) < 60_000_000_000,
        l.tokens_at(now) <= l.capacity(),
        l.tokens_at(now) < l.capacity() ==> l.tokens_at(now) * 60_000_000_000 + l.credit_by(now)
            == l.tokens() * 60_000_000_000 + l.credit() + (now - l.refilled_at()) * n,
        l.tokens_at(now) == l.capacity() ==> l.tokens() * 60_000_000_000 + l.credit() + (now
            - l.refilled_at()) * n >= l.capacity() * 60_000_000_000,
        now > l.refilled_at() ==> l.refilled_at_by(now) == now,
{
    assert((now - l.refilled_at()) * n >= 0) by (nonlinear_arith)
        requires
            now >= l.refilled_at(),
            n >= 0,
    ;
}

/// A clock that goes back changes nothing.
pub proof fn law_time_goes_on(l: &RateLimiter, now: u64)
    requires
        l.wf(),
        now <= l.refilled_at(),
    ensures
        l.tokens_at(now) == l.tokens(),
        l.credit_by(now) == l.credit(),
        l.refilled_at_by(now) == l.refilled_at(),
{
    match l.pace() {
        Pace::PerMinute(n) => {
            assert(0 * n == 0) by (nonlinear_arith);
        },
        Pace::PerSecond(n) => {
            assert(0 * n == 0) by (nonlinear_arith);
            assert(0int / 1_000_000_000 == 0);
        },
    }
}

/// A token is taken if and only if there is one after the refill, and then exactly one; the limits
/// stay as they are.
pub proof fn law_attempts_take_one_token(
    before: &RateLimiter,
    after: &RateLimiter,
    now: u64,
    taken: bool,
)
    requires
        before.wf(),
        before.tried(after, now, taken),
    ensures
        taken <==> before.tokens_at(now) >= 1,
        taken ==> after.tokens() + 1 == before.tokens_at(now),
        !taken ==> after.tokens() == 0 && before.tokens_at(now) == 0,
        after.rpm() == before.rpm(),
        after.capacity() == before.capacity(),
        after.pace() == before.pace(),
        after.wf(),
{
    law_bucket_bounded(before, now);
}

/// One who waits for a token tries again after the time in which the pace gives one, in whole
/// milliseconds, at least one and at most a thousand.
pub proof fn law_waits(l: &RateLimiter)
    requires
        l.wf(),
    ensures
        1 <= l.wait_ms() <= 1000,
        l.pace() is PerMinute ==> l.wait_ms() == 1000,
        l.pace() matches Pace::PerSecond(n) ==> (l.wait_ms() == 1 || l.wait_ms() * n <= 1000) && (
        l.wait_ms() + 1) * n > 1000,
{
    match l.pace() {
        Pace::PerMinute(_) => {},
        Pace::PerSecond(n) => {
            let q = (1000u64 / n) as int;
            let d = n as int;
            assert(q * d <= 1000 && (q + 1) * d > 1000 && 0 <= q <= 1000) by (nonlinear_arith)
                requires
                    d >= 1,
                    q == 1000int / d,
            ;
            if q < 1 {
                assert((1 + 1) * d > 1000) by (nonlinear_arith)
                    requires
                        d >= 1,
                        q < 1,
                        (q + 1) * d > 1000,
                        q >= 0,
                ;
            }
        },
    }
}

/// A fixed delay is always the same; a linear one is the delay for each retry that is left, none
/// where none is; an exponential one is the scaled delay up to the maximum. Each strategy allows
/// as many retries as it says.
pub proof fn law_delays(s: RetryStrategy, attempt: u32, scaled_ms: u64)
    ensures
        match s {
            RetryStrategy::Fixed { delay_ms, max_retries } => s.delay(attempt, scaled_ms)
                == delay_ms
                && s.limit() == max_retries,
            RetryStrategy::Linear { delay_ms, max_retries } => s.limit() == max_retries && (attempt
                >= max_retries ==> s.delay(attempt, scaled_ms) == 0) && (attempt < max_retries
                && delay_ms * (max_retries - attempt) <= u64::MAX ==> s.delay(attempt, scaled_ms)
                == delay_ms * (max_retries - attempt)) && (attempt < max_retries && delay_ms * (
            max_retries - attempt) > u64::MAX ==> s.delay(attempt, scaled_ms) == u64::MAX),
            RetryStrategy::Exponential { max_delay_ms, max_retries, .. } => s.limit() == max_retries
                && (scaled_ms <= max_delay_ms ==> s.delay(attempt, scaled_ms) == scaled_ms) && (
            scaled_ms > max_delay_ms ==> s.delay(attempt, scaled_ms) == max_delay_ms),
        },
{
    if let RetryStrategy::Linear { delay_ms, .. } = s {
        assert(delay_ms * 0 == 0) by (nonlinear_arith);
    }
}

/// Jitter adds the remainder of the random word to the delay where it is asked for; without it the
/// delay stays as it is.
pub proof fn law_jitter(config: RetryConfig, delay: u64, range: u64, random: u64)
    ensures
        !config.jitter || range == 0 ==> jittered(config, delay as int, range, random) == delay,
        config.jitter && random < range && delay + random <= u64::MAX ==> jittered(
            config,
            delay as int,
            range,
            random,
        ) == delay + random,
        config.jitter && range > 0 && random >= range ==> jittered(
            config,
            delay as int,
            range,
            random,
        ) == jittered(config, delay as int, range, (random - range) as u64),
{
    if config.jitter && random < range {
        assert(random % range == random) by (nonlinear_arith)
            requires
                0 <= random < range,
        ;
    }
    if config.jitter && range > 0 && random >= range {
        let less = (random - range) as u64;
        assert(random as int % range as int == less as int % range as int) by {
            vstd::arithmetic::div_mod::lemma_mod_add_multiples_vanish(less as int, range as int);
        }
    }
}

/// The next delay: none once all retries are used, and then nothing changes;
/// otherwise the strategy's delay with its jitter is added to the time that was spent, and it is
/// granted, as one more attempt, if and only if that stays below the time that may be spent.
pub proof fn law_next_delay(
    before: &RetryPolicy,
    after: &RetryPolicy,
    r: Option<u64>,
    scaled_ms: u64,
    jitter_range: u64,
    random: u64,
)
    requires
        before.wf(),
        before.room_for_delay(scaled_ms, jitter_range),
        before.advanced(after, r, scaled_ms, jitter_range, random),
    ensures
        ({
            let delay = jittered(
                before.settings(),
                before.settings().strategy.delay(before.attempts(), scaled_ms),
                jitter_range,
                random,
            );
            let limit = before.settings().strategy.limit();
            &&& after.settings() == before.settings()
            &&& before.attempts() >= limit ==> r is None && after.attempts() == before.attempts()
                && after.elapsed() == before.elapsed() && after.last_delay() == before.last_delay()
            &&& before.attempts() < limit ==> after.elapsed() == before.elapsed() + delay
                && after.last_delay() == delay
            &&& before.attempts() < limit && before.elapsed() + delay
                < before.settings().max_total_time_sec * 1000 ==> r is Some && r->0 == delay
                && after.attempts() == before.attempts() + 1
            &&& before.attempts() < limit && before.elapsed() + delay
                >= before.settings().max_total_time_sec * 1000 ==> r is None && after.attempts()
                == before.attempts()
        }),
{
}

/// Where nothing else is said, delays double from one second to a minute at most, over five
/// retries.
pub proof fn law_default_strategy()
    ensures
        default_strategy() matches RetryStrategy::Exponential {
            initial_delay_ms,
            max_delay_ms,
            multiplier,
            max_retries,
        } && initial_delay_ms == 1000 && max_delay_ms == 60000 && multiplier.bits
            == 0x4000_0000_0000_0000 && max_retries == 5,
{
}

/// There is room for another delay if and only if no retry is left, or the time that was spent
/// stays in range with the longest delay that jitter allows, and so does the time that may be
/// spent, in milliseconds.
pub proof fn law_room_for_delay(p: &RetryPolicy, scaled_ms: u64, range: u64)
    ensures
        ({
            let s = p.settings();
            let delay = s.strategy.delay(p.attempts(), scaled_ms);
            let longest = if s.jitter && range > 0 {
                if delay + range - 1 <= u64::MAX {
                    delay + range - 1
                } else {
                    u64::MAX as int
                }
            } else {
                delay
            };
            p.room_for_delay(scaled_ms, range) <==> p.attempts() >= s.strategy.limit()
                || p.elapsed() + longest <= u64::MAX && s.max_total_time_sec * 1000 <= u64::MAX
        }),
{
}

} // verus!
