//! A sequence of jittered backoff delays, handed out one at a time.
use vstd::prelude::*;
use crate::retry_strategy::{jittered_delay, jittered_delay_spec, Delay};

verus! {

/// The delays of jittered backoff for attempts `0, 1, ...` up to, but not
/// including, `max_retry`.
#[derive(Debug, Clone, Copy)]
pub struct RetryDelay {
    /// The attempt whose delay comes next.
    pub n: usize,
    pub max_retry: usize,
}

impl RetryDelay {
    pub fn new(max_retry: usize) -> (r: Self)
        ensures
            r.n == 0,
            r.max_retry == max_retry,
    {
        Self { n: 0, max_retry }
    }

    /// The next delay, or `None` once `max_retry` delays have been given.
    pub fn next(&mut self) -> (r: Option<Delay>)
        ensures
            exists|random: u64| r == jittered_delay_spec(old(self).max_retry, old(self).n, random),
            r is None <==> old(self).n >= old(self).max_retry,
            final(self).max_retry == old(self).max_retry,
            final(self).n == if r is Some { old(self).n + 1 } else { old(self).n as int },
    {
        let random: u64 = rand::random::<u64>();
        let r = jittered_delay(self.max_retry, self.n, random);
        if r.is_some() {
            self.n = self.n + 1;
        }
        r
    }
}

} // verus!
