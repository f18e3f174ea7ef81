//! The delay policy: named backoff intervals, applied at fixed points.
//!
//! Every delay gets a small random jitter added so that chains and jobs do
//! not wake in lockstep. The randomness is drawn outside this library and
//! handed in; the bounds and sums are checked here.

use vstd::prelude::*;

use crate::chain::Chain;

verus! {

/// Pause between successive block fetches during a backward walk.
pub const COURTESY_DELAY_MS: u64 = 100;

/// Pause before refetching a block the remote has not propagated yet.
pub const RETRY_DELAY_MS: u64 = 100;

/// Pause before resubmitting any job that failed.
pub const JOB_ERROR_DELAY_MS: u64 = 1000;

/// Pause after a completed calculation cycle over all chains.
pub const RECALCULATE_DELAY_MS: u64 = 30000;

/// Rescan pause for chains that produce blocks quickly.
pub const FAST_RESCAN_DELAY_MS: u64 = 10000;

/// Rescan pause for chains that produce blocks slowly.
pub const SLOW_RESCAN_DELAY_MS: u64 = 60000;

/// Jitter is drawn uniformly below this bound.
pub const JITTER_BOUND_MS: u64 = 100;

/// The rescan pause for a chain, applied after a completed (or no-op)
/// import pass before the next one.
pub open spec fn spec_rescan_delay_ms(chain: Chain) -> u64 {
    match chain {
        Chain::Solana => FAST_RESCAN_DELAY_MS,
        _ => SLOW_RESCAN_DELAY_MS,
    }
}

/// The rescan pause for a chain: short for fast-block chains, longer for
/// the rest.
pub fn rescan_delay_ms(chain: Chain) -> (r: u64)
    ensures
        r == spec_rescan_delay_ms(chain),
{
    match chain {
        Chain::Solana => FAST_RESCAN_DELAY_MS,
        _ => SLOW_RESCAN_DELAY_MS,
    }
}

/// A base delay with its jitter applied. The jitter must lie below the
/// jitter bound; it is drawn outside this library.
pub fn delay_with_jitter_ms(base_ms: u64, jitter_ms: u64) -> (r: u64)
    requires
        jitter_ms < JITTER_BOUND_MS,
        base_ms + jitter_ms <= u64::MAX,
    ensures
        r == base_ms + jitter_ms,
{
    base_ms + jitter_ms
}

} // verus!
