//! How a write transaction waits out a busy database: a linear back-off,
//! given up after a fixed number of retries.

use vstd::prelude::*;

verus! {

/// The most times a busy database is retried.
pub const MAX_RETRIES: u32 = 5;

/// The step of the back-off, in milliseconds.
pub const RETRY_BASE_MS: u64 = 50;

/// The wait before the retry that follows `attempt` earlier retries, in
/// milliseconds; none once the retries are used up.
pub open spec fn backoff_spec(attempt: nat) -> Option<nat> {
    if attempt < MAX_RETRIES {
        Some((RETRY_BASE_MS * (attempt + 1)) as nat)
    } else {
        None
    }
}

/// What to do when the database was busy at the start of a transaction,
/// after `attempt` earlier retries: wait the returned milliseconds and try
/// again, or give up with the busy error (see [`backoff_spec`]).
pub fn busy_backoff_ms(attempt: u32) -> (r: Option<u64>)
    ensures
        match r {
            Some(ms) => backoff_spec(attempt as nat) == Some(ms as nat),
            None => backoff_spec(attempt as nat) is None,
        },
{
    if attempt < MAX_RETRIES {
        Some(RETRY_BASE_MS * (attempt as u64 + 1))
    } else {
        None
    }
}

/// The total wait of the first `n` retries.
pub open spec fn total_backoff(n: nat) -> nat
    decreases n,
{
    if n == 0 {
        0
    } else {
        total_backoff((n - 1) as nat) + match backoff_spec((n - 1) as nat) {
            Some(ms) => ms,
            None => 0,
        }
    }
}

/// A transaction is retried at most `MAX_RETRIES` times, and waits at most
/// 750 milliseconds in all for a busy database.
pub proof fn lemma_backoff_bounded(n: nat)
    ensures
        n >= MAX_RETRIES ==> backoff_spec(n) is None,
        total_backoff(n) <= 750,
    decreases n,
{
    if n > 0 {
        lemma_backoff_bounded((n - 1) as nat);
        if n > MAX_RETRIES {
            assert(total_backoff(n) == total_backoff((n - 1) as nat));
        } else {
            assert(total_backoff(0) == 0);
            assert(total_backoff(1) == 50);
            assert(total_backoff(2) == 150);
            assert(total_backoff(3) == 300);
            assert(total_backoff(4) == 500);
            assert(total_backoff(5) == 750);
        }
    }
}

} // verus!
