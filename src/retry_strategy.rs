//! The policy that decides whether a failed request is tried again, and
//! after how long.
use vstd::prelude::*;
use vstd::arithmetic::power2::{lemma2_to64, lemma_pow2_strictly_increases, lemma_pow2_unfold, pow2};

verus! {

/// Relies on `rand::random`: a value drawn from the type's standard
/// distribution; nothing is promised of which.
pub assume_specification<T>[ rand::random::<T> ]() -> (r: T)
    where
        rand::distributions::Standard: rand::distributions::Distribution<T>,
;

/// A wait before the next attempt, in milliseconds.
#[derive(Debug, Clone, Copy, PartialEq, Eq, PartialOrd, Ord, Structural)]
pub struct Delay {
    pub millis: u64,
}

impl Delay {
    pub fn from_millis(millis: u64) -> (r: Delay)
        ensures
            r.millis == millis,
    {
        Delay { millis }
    }

    pub fn as_millis(&self) -> (r: u64)
        ensures
            r == self.millis,
    {
        self.millis
    }
}

/// A retry policy. Before each attempt, numbered from zero, the fetcher asks
/// it whether to go on: `None` stops the fetch, `Some(delay)` lets the
/// attempt go ahead and says how long to wait after it if it fails.
pub trait RetryStrategy {
    fn should_retry_after(&self, attempt: usize) -> Option<Delay>;
}

/// `2^attempt` seconds in milliseconds, or `u64::MAX` where that does not fit.
pub open spec fn backoff_ceiling(attempt: nat) -> int {
    if pow2(attempt) * 1000 <= u64::MAX {
        (pow2(attempt) * 1000) as int
    } else {
        u64::MAX as int
    }
}

/// The jittered exponential backoff: no wait before attempt zero, then
/// `2^attempt` seconds less a jitter of `random % 1000` milliseconds, and a
/// stop from attempt `max_retry` on.
pub open spec fn jittered_delay_spec(max_retry: usize, attempt: usize, random: u64) -> Option<Delay> {
    if attempt >= max_retry {
        None
    } else if attempt == 0 {
        Some(Delay { millis: 0 })
    } else {
        Some(Delay { millis: (backoff_ceiling(attempt as nat) - random % 1000) as u64 })
    }
}

/// `backoff_ceiling(attempt)`.
fn ceiling_millis(attempt: usize) -> (r: u64)
    ensures
        r == backoff_ceiling(attempt as nat),
{
    proof { lemma2_to64(); }
    let mut c: u64 = 1000;
    let mut k: usize = 0;
    while k < attempt && c < u64::MAX
        invariant
            k <= attempt,
            c == backoff_ceiling(k as nat),
        decreases attempt - k,
    {
        proof { lemma_pow2_unfold((k + 1) as nat); }
        if c > u64::MAX / 2 {
            c = u64::MAX;
        } else {
            c = c * 2;
        }
        k = k + 1;
    }
    proof {
        if k < attempt {
            lemma_pow2_strictly_increases(k as nat, attempt as nat);
        }
    }
    c
}

/// The delay that jittered backoff gives for `attempt`, with `random` as the
/// random draw.
pub fn jittered_delay(max_retry: usize, attempt: usize, random: u64) -> (r: Option<Delay>)
    ensures
        r == jittered_delay_spec(max_retry, attempt, random),
{
    if attempt >= max_retry {
        None
    } else if attempt == 0 {
        Some(Delay { millis: 0 })
    } else {
        let ceiling = ceiling_millis(attempt);
        proof { lemma2_to64(); lemma_pow2_strictly_increases(0, attempt as nat); }
        Some(Delay { millis: ceiling - random % 1000 })
    }
}

/// Jittered backoff stops at `max_retry` and otherwise waits less than
/// `2^attempt` seconds, nothing at all before attempt zero, unless the
/// jitter drawn is zero, where the wait is `2^attempt` seconds exactly.
pub proof fn lemma_jittered_delay_bounds(max_retry: usize, attempt: usize, random: u64)
    requires
        attempt == 0 || random % 1000 != 0,
    ensures
        attempt >= max_retry ==> jittered_delay_spec(max_retry, attempt, random) is None,
        attempt < max_retry ==> jittered_delay_spec(max_retry, attempt, random) is Some,
        attempt < max_retry ==> jittered_delay_spec(max_retry, attempt, random)->Some_0.millis
            < pow2(attempt as nat) * 1000,
        attempt == 0 < max_retry ==> jittered_delay_spec(max_retry, attempt, random) == Some(Delay { millis: 0 }),
{
    lemma2_to64();
    if attempt > 0 {
        lemma_pow2_strictly_increases(0, attempt as nat);
        let c = backoff_ceiling(attempt as nat);
        assert(c <= pow2(attempt as nat) * 1000);
        assert(c >= 2000);
        assert(random % 1000 >= 1);
        assert(c - random % 1000 < pow2(attempt as nat) * 1000);
    }
}

/// The default retry strategy: jittered exponential backoff for a bounded
/// number of attempts.
pub struct JitteredBackoff {
    /// The attempt at which the strategy stops.
    pub max_retry: usize,
}

impl JitteredBackoff {
    pub fn new(max_retry: usize) -> (r: Self)
        ensures
            r.max_retry == max_retry,
    {
        Self { max_retry }
    }
}

impl RetryStrategy for JitteredBackoff {
    /// Draws a jitter and gives the jittered delay for `attempt`.
    fn should_retry_after(&self, attempt: usize) -> (r: Option<Delay>)
        ensures
            exists|random: u64| r == jittered_delay_spec(self.max_retry, attempt, random),
            r is None <==> attempt >= self.max_retry,
            attempt == 0 < self.max_retry ==> r == Some(Delay { millis: 0 }),
    {
        let random: u64 = rand::random::<u64>();
        jittered_delay(self.max_retry, attempt, random)
    }
}

impl Default for JitteredBackoff {
    /// Five attempts.
    fn default() -> (r: Self)
        ensures
            r.max_retry == 5,
    {
        JitteredBackoff::new(5)
    }
}

} // verus!
