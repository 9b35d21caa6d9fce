//! The per-asset retry policy: attempts, pacing with jitter, and backoff.

use vstd::prelude::*;
use vstd::arithmetic::power2::{lemma2_to64, lemma2_to64_rest, lemma_pow2_strictly_increases, lemma_pow2_unfold, pow2};
use crate::frame::PriceFrame;

verus! {

/// Attempts made for one asset before it is left for the next run.
pub const MAX_RETRIES: u32 = 4;

/// Pacing jitter is drawn below this many milliseconds.
pub const JITTER_SPAN_MS: u64 = 1000;

/// Relies on `rand::random`: a value from the thread-local generator, of
/// which nothing is promised.
pub assume_specification<T>[ rand::random::<T> ]() -> (r: T)
    where
        rand::distributions::Standard: rand::distributions::Distribution<T>,
;

/// The least time an attempt takes: the base pacing and a jitter below
/// [`JITTER_SPAN_MS`] taken from `draw`.
pub fn pacing_ms(base_ms: u64, draw: u64) -> (r: u64)
    requires
        base_ms <= u64::MAX - JITTER_SPAN_MS,
    ensures
        r == base_ms + draw % JITTER_SPAN_MS,
{
    base_ms + draw % JITTER_SPAN_MS
}

/// The pacing of an attempt, with a fresh random jitter.
pub fn random_pacing_ms(base_ms: u64) -> (r: u64)
    requires
        base_ms <= u64::MAX - JITTER_SPAN_MS,
    ensures
        base_ms <= r < base_ms + JITTER_SPAN_MS,
{
    let draw: u64 = rand::random::<u64>();
    pacing_ms(base_ms, draw)
}

/// The wait after a failed attempt, in seconds: `2^max_retries` on every
/// attempt, the same for all of them rather than growing with the attempt.
pub fn backoff_secs(max_retries: u32) -> (r: u64)
    requires
        max_retries < 64,
    ensures
        r == pow2(max_retries as nat),
{
    let mut r: u64 = 1;
    let mut i: u32 = 0;
    proof {
        lemma2_to64();
        lemma2_to64_rest();
    }
    while i < max_retries
        invariant
            i <= max_retries < 64,
            r == pow2(i as nat),
            r <= pow2(63),
            pow2(63) == 0x8000_0000_0000_0000,
        decreases max_retries - i,
    {
        proof {
            lemma_pow2_unfold(i as nat + 1);
            if i + 1 < 63 {
                lemma_pow2_strictly_increases(i as nat + 1, 63);
            }
        }
        r = r * 2;
        i = i + 1;
    }
    r
}

/// What fetching one asset came to.
pub enum FetchOutcome<P> {
    /// The rows fetched, tagged with the asset's id.
    Fetched(PriceFrame<P>),
    /// Every attempt failed: nothing to store, the asset waits for the next run.
    Exhausted,
    /// The fetched data could not be turned into rows.
    Failed,
}

/// The attempts for one asset.
pub struct Retry {
    /// The number of the next attempt, from 1.
    pub attempt: u32,
    pub max_retries: u32,
}

/// What to do after an attempt failed.
#[derive(Clone, Copy, Debug, PartialEq, Eq, Structural)]
pub enum RetryAction {
    /// Wait this many seconds, then make the next attempt.
    Retry { backoff_secs: u64 },
    /// Wait this many seconds; no attempt is left.
    GiveUp { backoff_secs: u64 },
}

impl Retry {
    pub fn new(max_retries: u32) -> (r: Retry)
        ensures
            r.attempt == 1,
            r.max_retries == max_retries,
    {
        Retry { attempt: 1, max_retries }
    }

    /// Whether an attempt is left.
    pub fn can_attempt(&self) -> (r: bool)
        ensures
            r == (self.attempt <= self.max_retries),
    {
        self.attempt <= self.max_retries
    }

    /// Records a failed attempt.
    pub fn failed(&mut self) -> (r: RetryAction)
        requires
            old(self).attempt <= old(self).max_retries < 64,
        ensures
            final(self).max_retries == old(self).max_retries,
            final(self).attempt == old(self).attempt + 1,
            r == (if final(self).attempt <= final(self).max_retries {
                RetryAction::Retry { backoff_secs: pow2(old(self).max_retries as nat) as u64 }
            } else {
                RetryAction::GiveUp { backoff_secs: pow2(old(self).max_retries as nat) as u64 }
            }),
    {
        let wait = backoff_secs(self.max_retries);
        self.attempt = self.attempt + 1;
        if self.attempt <= self.max_retries {
            RetryAction::Retry { backoff_secs: wait }
        } else {
            RetryAction::GiveUp { backoff_secs: wait }
        }
    }
}

} // verus!
