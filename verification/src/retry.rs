//! The retry policy: bounded attempts with exponential backoff, and the
//! pipeline-wide failure tally that pauses event consumption after a
//! sustained failure streak.

use vstd::prelude::*;

verus! {

/// Attempts allowed for one fallible step (hashing, catalog insert, and
/// event handling as a whole).
pub const RETRY_MAX_ATTEMPTS: u32 = 3;

/// Base backoff delay before a retry, doubled after every further
/// failure.
pub const RETRY_BASE_DELAY_MS: u64 = 1000;

/// Every this-many-th cumulative failure pauses the whole pipeline.
pub const ERROR_PAUSE_EVERY: u32 = 10;

/// How long the pipeline pauses after a failure streak.
pub const ERROR_PAUSE_SECS: u64 = 30;

pub open spec fn pow2(n: nat) -> nat
    decreases n,
{
    if n == 0 {
        1
    } else {
        2 * pow2((n - 1) as nat)
    }
}

proof fn lemma_pow2_monotone(a: nat, b: nat)
    requires
        a <= b,
    ensures
        pow2(a) <= pow2(b),
    decreases b,
{
    if a < b {
        lemma_pow2_monotone(a, (b - 1) as nat);
    }
}

proof fn lemma_pow2_bound(n: nat)
    requires
        n <= 30,
    ensures
        pow2(n) <= 0x4000_0000,
{
    lemma_pow2_monotone(n, 30);
    assert(pow2(30) == 0x4000_0000) by {
        reveal_with_fuel(pow2, 31);
    }
}

/// The backoff delay before retry number `attempt + 1`, after `attempt`
/// failed attempts: `1000ms * 2^(attempt - 1)`.
pub fn backoff_delay_ms(attempt: u32) -> (r: u64)
    requires
        1 <= attempt <= 32,
    ensures
        r == RETRY_BASE_DELAY_MS * pow2((attempt - 1) as nat),
{
    let mut d: u64 = RETRY_BASE_DELAY_MS;
    let mut k: u32 = 1;
    while k < attempt
        invariant
            1 <= k <= attempt <= 32,
            d == RETRY_BASE_DELAY_MS * pow2((k - 1) as nat),
        decreases attempt - k,
    {
        proof {
            lemma_pow2_bound((k - 1) as nat);
        }
        d = d * 2;
        k += 1;
    }
    d
}

/// The first few powers of two, for callers that bound a small backoff.
pub proof fn lemma_pow2_small()
    ensures
        pow2(0) == 1,
        pow2(1) == 2,
        pow2(2) == 4,
{
    reveal_with_fuel(pow2, 3);
}

/// What to do after a failed attempt: retry after a backoff delay while
/// attempts remain, otherwise give up and surface the final error.
pub enum RetryDecision {
    Retry { delay_ms: u64 },
    GiveUp,
}

/// Decide the follow-up to failed attempt number `attempt` out of
/// `max_attempts`.
pub fn retry_after_failure(attempt: u32, max_attempts: u32) -> (r: RetryDecision)
    requires
        1 <= attempt <= max_attempts <= 32,
    ensures
        attempt < max_attempts ==> (r matches RetryDecision::Retry { delay_ms } && delay_ms
            == RETRY_BASE_DELAY_MS * pow2((attempt - 1) as nat)),
        attempt == max_attempts ==> r is GiveUp,
{
    if attempt < max_attempts {
        RetryDecision::Retry { delay_ms: backoff_delay_ms(attempt) }
    } else {
        RetryDecision::GiveUp
    }
}

} // verus!
