//! The windowed TPS aggregation: one calculation per chain, from scratch
//! each cycle.
//!
//! Starting at the stored head block, the calculator walks backward through
//! locally stored blocks, summing transaction counts, until it crosses the
//! one-week window floor, reaches genesis, or runs out of stored history.
//! The boundary block's transactions are excluded from the count but its
//! timestamp defines the window's start.

use vstd::prelude::*;

use crate::block::Block;
use crate::store::{ChainCalcs, ChainStore, StoreView};

verus! {

/// Length of the trailing window over which TPS is estimated, in seconds.
pub const SECONDS_PER_WEEK: u64 = 604800;

/// Result of the backward window walk from height `cur`: the window's
/// starting timestamp, and the (unbounded) sum of `num_txs` over the blocks
/// whose transactions fall inside the window.
///
/// Mirrors one step of the walk: if `cur` is genesis or the block below is
/// not stored, the walk stops at `cur` and counts nothing more; otherwise
/// `cur`'s transactions are counted, and the walk stops at the block below
/// when that block's timestamp is at or before `min_timestamp` or it is
/// genesis.
pub open spec fn window_walk(blocks: Map<u64, Block>, cur: u64, min_timestamp: int) -> (int, int)
    recommends
        blocks.contains_key(cur),
    decreases cur,
{
    let b = blocks[cur];
    if cur == 0 || !blocks.contains_key((cur - 1) as u64) {
        (b@.timestamp, 0)
    } else {
        let prev = blocks[(cur - 1) as u64];
        if prev@.timestamp <= min_timestamp || cur - 1 == 0 {
            (prev@.timestamp, b@.num_txs)
        } else {
            let rest = window_walk(blocks, (cur - 1) as u64, min_timestamp);
            (rest.0, rest.1 + b@.num_txs)
        }
    }
}

/// The walk's transaction sum never goes negative.
pub proof fn lemma_window_walk_sum_nonneg(blocks: Map<u64, Block>, cur: u64, min_timestamp: int)
    ensures
        window_walk(blocks, cur, min_timestamp).1 >= 0,
    decreases cur,
{
    if cur == 0 || !blocks.contains_key((cur - 1) as u64) {
    } else {
        let prev = blocks[(cur - 1) as u64];
        if prev@.timestamp <= min_timestamp || cur - 1 == 0 {
        } else {
            lemma_window_walk_sum_nonneg(blocks, (cur - 1) as u64, min_timestamp);
        }
    }
}

/// The heights flagged as non-monotonic over the same walked window: a
/// height is flagged when the stored block one below it reports a *later*
/// timestamp. Listed in walk order, newest first. The anomaly is tolerated
/// by the calculation — the service only logs it as a warning.
pub open spec fn window_anomalies(blocks: Map<u64, Block>, cur: u64, min_timestamp: int) -> Seq<
    u64,
>
    decreases cur,
{
    if cur == 0 || !blocks.contains_key((cur - 1) as u64) {
        Seq::empty()
    } else {
        let prev = blocks[(cur - 1) as u64];
        let here: Seq<u64> = if prev@.timestamp > blocks[cur]@.timestamp {
            seq![cur]
        } else {
            Seq::empty()
        };
        if prev@.timestamp <= min_timestamp || cur - 1 == 0 {
            here
        } else {
            here + window_anomalies(blocks, (cur - 1) as u64, min_timestamp)
        }
    }
}

/// Walks the same window as the calculation and reports every height whose
/// stored predecessor has a later timestamp — the non-monotonic anomalies
/// the service warns about (and otherwise tolerates). On a store with no
/// head pointer, a missing head block, or a head too young for a window,
/// there is no walk and nothing to report.
pub fn timestamp_anomalies(store: &ChainStore) -> (r: Vec<u64>)
    ensures
        match store@.highest {
            None => r@ == Seq::<u64>::empty(),
            Some(h) => {
                if !store@.blocks.contains_key(h) || store@.blocks[h]@.timestamp
                    < SECONDS_PER_WEEK {
                    r@ == Seq::<u64>::empty()
                } else {
                    r@ == window_anomalies(
                        store@.blocks,
                        h,
                        store@.blocks[h]@.timestamp - SECONDS_PER_WEEK,
                    )
                }
            },
        },
{
    let mut anomalies: Vec<u64> = Vec::new();
    let highest = match store.load_highest_block_number() {
        Some(h) => h,
        None => {
            return anomalies;
        },
    };
    let head_block = match store.load_block(highest) {
        Some(b) => b,
        None => {
            return anomalies;
        },
    };
    let latest_timestamp = head_block.timestamp;
    let min_timestamp = match latest_timestamp.checked_sub(SECONDS_PER_WEEK) {
        Some(m) => m,
        None => {
            return anomalies;
        },
    };
    let ghost blocks = store@.blocks;
    let ghost h = store@.highest->Some_0;
    let mut current_block_number = highest;
    let mut current_timestamp = head_block.timestamp;
    loop
        invariant_except_break
            window_anomalies(blocks, h, min_timestamp as int) == anomalies@ + window_anomalies(
                blocks,
                current_block_number,
                min_timestamp as int,
            ),
        invariant
            store@.blocks == blocks,
            store@.highest == Some(h),
            blocks.contains_key(current_block_number),
            blocks[current_block_number]@.timestamp == current_timestamp,
        ensures
            window_anomalies(blocks, h, min_timestamp as int) == anomalies@,
        decreases current_block_number,
    {
        if current_block_number == 0 {
            proof {
                assert(window_anomalies(blocks, h, min_timestamp as int) =~= anomalies@);
            }
            break ;
        }
        let prev_block = match store.load_block(current_block_number - 1) {
            Some(b) => b,
            None => {
                proof {
                    assert(window_anomalies(blocks, h, min_timestamp as int) =~= anomalies@);
                }
                break ;
            },
        };
        if prev_block.timestamp > current_timestamp {
            anomalies.push(current_block_number);
        }
        proof {
            if prev_block@.timestamp <= min_timestamp || current_block_number - 1 == 0 {
                assert(window_anomalies(blocks, h, min_timestamp as int) =~= anomalies@);
            } else {
                assert(window_anomalies(blocks, h, min_timestamp as int) =~= anomalies@
                    + window_anomalies(
                    blocks,
                    (current_block_number - 1) as u64,
                    min_timestamp as int,
                ));
            }
        }
        if prev_block.timestamp <= min_timestamp || current_block_number - 1 == 0 {
            break ;
        }
        current_timestamp = prev_block.timestamp;
        current_block_number = current_block_number - 1;
    }
    anomalies
}

/// Why a chain's TPS could not be computed this cycle. Each failure is
/// scoped to its chain: other chains' calculations are unaffected and
/// nothing is persisted for this chain.
#[derive(Clone, Copy, PartialEq, Eq, Structural, Debug)]
pub enum CalcError {
    /// The chain was never imported: no head pointer exists.
    NoData,
    /// The head pointer names a block that is not stored — broken storage.
    MissingHeadBlock,
    /// The head block's timestamp is too small to subtract a week from —
    /// data that should be impossible under correct chain input.
    WindowUnderflow,
    /// Summing `num_txs` overflowed the running counter — data that should
    /// be impossible under correct chain input.
    TxSumOverflow,
    /// The window's starting timestamp exceeds the head block's timestamp,
    /// so the window would have negative length.
    WindowOrderViolation,
    /// The window length in seconds does not fit the bounded range.
    SecondsOverflow,
    /// The transaction count does not fit the bounded range.
    TxsOverflow,
}

/// What one calculation returns for a given store state: the whole decision
/// chain, in the order the errors are checked — no head pointer; head block
/// missing; window floor underflow; transaction sum overflow during the
/// walk; window start after window end; window seconds out of range;
/// transaction count out of range — and otherwise the exact ratio.
pub open spec fn spec_calculate(s: StoreView) -> Result<ChainCalcs, CalcError> {
    match s.highest {
        None => Err(CalcError::NoData),
        Some(h) => {
            if !s.blocks.contains_key(h) {
                Err(CalcError::MissingHeadBlock)
            } else if s.blocks[h]@.timestamp < SECONDS_PER_WEEK {
                Err(CalcError::WindowUnderflow)
            } else {
                let latest = s.blocks[h]@.timestamp;
                let walk = window_walk(s.blocks, h, latest - SECONDS_PER_WEEK);
                if walk.1 > u64::MAX {
                    Err(CalcError::TxSumOverflow)
                } else if walk.0 > latest {
                    Err(CalcError::WindowOrderViolation)
                } else if latest - walk.0 > u32::MAX {
                    Err(CalcError::SecondsOverflow)
                } else if walk.1 > u32::MAX {
                    Err(CalcError::TxsOverflow)
                } else {
                    Ok(
                        ChainCalcs {
                            chain: s.chain,
                            num_txs: walk.1 as u32,
                            total_seconds: (latest - walk.0) as u32,
                        },
                    )
                }
            }
        },
    }
}

/// Computes the rolling-window TPS figure for the chain held in `store`,
/// as the exact ratio of transactions counted to window seconds.
///
/// The error cases are mutually exclusive and checked in this order: no
/// head pointer; head block missing; window floor underflow; transaction
/// sum overflow during the walk; window start after window end; window
/// seconds out of range; transaction count out of range.
pub fn calculate_for_chain(store: &ChainStore) -> (r: Result<ChainCalcs, CalcError>)
    ensures
        r == spec_calculate(store@),
{
    let highest = match store.load_highest_block_number() {
        Some(h) => h,
        None => {
            return Err(CalcError::NoData);
        },
    };
    let head_block = match store.load_block(highest) {
        Some(b) => b,
        None => {
            return Err(CalcError::MissingHeadBlock);
        },
    };
    let latest_timestamp = head_block.timestamp;
    let min_timestamp = match latest_timestamp.checked_sub(SECONDS_PER_WEEK) {
        Some(m) => m,
        None => {
            return Err(CalcError::WindowUnderflow);
        },
    };
    let ghost blocks = store@.blocks;
    let ghost h = store@.highest->Some_0;
    let mut current_block_number = highest;
    let mut current_timestamp = head_block.timestamp;
    let mut current_num_txs = head_block.num_txs;
    let mut num_txs: u64 = 0;
    let mut init_timestamp: u64 = 0;
    loop
        invariant_except_break
            window_walk(blocks, h, min_timestamp as int) == (
                window_walk(blocks, current_block_number, min_timestamp as int).0,
                window_walk(blocks, current_block_number, min_timestamp as int).1 + num_txs,
            ),
        invariant
            store@.blocks == blocks,
            store@.highest == Some(h),
            blocks.contains_key(current_block_number),
            blocks[current_block_number]@.timestamp == current_timestamp,
            blocks[current_block_number]@.num_txs == current_num_txs,
            min_timestamp == latest_timestamp - SECONDS_PER_WEEK,
            blocks.contains_key(h),
            latest_timestamp == blocks[h]@.timestamp,
        ensures
            window_walk(blocks, h, min_timestamp as int).0 == init_timestamp,
            window_walk(blocks, h, min_timestamp as int).1 == num_txs,
        decreases current_block_number,
    {
        if current_block_number == 0 {
            // The head itself is genesis: nothing below it to count.
            init_timestamp = current_timestamp;
            break ;
        }
        let prev_block = match store.load_block(current_block_number - 1) {
            Some(b) => b,
            None => {
                // History below is not stored: the window starts here.
                init_timestamp = current_timestamp;
                break ;
            },
        };
        num_txs = match num_txs.checked_add(current_num_txs) {
            Some(s) => s,
            None => {
                proof {
                    lemma_window_walk_sum_nonneg(
                        blocks,
                        (current_block_number - 1) as u64,
                        min_timestamp as int,
                    );
                }
                return Err(CalcError::TxSumOverflow);
            },
        };
        // A predecessor timestamp above the current one is a non-monotonic
        // anomaly; it is tolerated, not corrected.
        if prev_block.timestamp <= min_timestamp || current_block_number - 1 == 0 {
            // The boundary block: its transactions stay uncounted, its
            // timestamp starts the window.
            init_timestamp = prev_block.timestamp;
            break ;
        }
        current_timestamp = prev_block.timestamp;
        current_num_txs = prev_block.num_txs;
        current_block_number = current_block_number - 1;
    }
    if init_timestamp > latest_timestamp {
        return Err(CalcError::WindowOrderViolation);
    }
    let total_seconds = latest_timestamp - init_timestamp;
    if total_seconds > u32::MAX as u64 {
        return Err(CalcError::SecondsOverflow);
    }
    if num_txs > u32::MAX as u64 {
        return Err(CalcError::TxsOverflow);
    }
    Ok(ChainCalcs {
        chain: store.chain(),
        num_txs: num_txs as u32,
        total_seconds: total_seconds as u32,
    })
}

/// Runs one calculation for the chain in `store` and persists the result
/// exactly when it succeeded: a failed calculation leaves the previously
/// persisted TPS figure untouched.
pub fn apply_calculation(store: &mut ChainStore) -> (r: Result<ChainCalcs, CalcError>)
    ensures
        r == spec_calculate(old(store)@),
        final(store)@.chain == old(store)@.chain,
        final(store)@.blocks == old(store)@.blocks,
        final(store)@.highest == old(store)@.highest,
        match r {
            Ok(calcs) => final(store)@.tps == Some(calcs) && calcs.chain == old(store)@.chain,
            Err(_) => final(store)@.tps == old(store)@.tps,
        },
{
    match calculate_for_chain(store) {
        Ok(calcs) => {
            store.store_tps(calcs);
            Ok(calcs)
        },
        Err(e) => Err(e),
    }
}

/// What one cycle does for one chain: everything but the TPS figure is
/// untouched, and the TPS figure is replaced exactly when the calculation
/// succeeded.
pub open spec fn calc_outcome(
    before: ChainStore,
    after: ChainStore,
    r: Result<ChainCalcs, CalcError>,
) -> bool {
    &&& after@.chain == before@.chain
    &&& after@.blocks == before@.blocks
    &&& after@.highest == before@.highest
    &&& match r {
        Ok(calcs) => after@.tps == Some(calcs) && calcs.chain == before@.chain,
        Err(_) => after@.tps == before@.tps,
    }
}

/// One calculation cycle over every chain's store, in order; a failure for
/// one chain leaves that chain's persisted TPS figure untouched and does
/// not affect any other chain.
pub fn calculate_all(stores: &mut Vec<ChainStore>) -> (results: Vec<Result<ChainCalcs, CalcError>>)
    ensures
        final(stores)@.len() == old(stores)@.len(),
        results@.len() == old(stores)@.len(),
        forall|j: int|
            0 <= j < old(stores)@.len() ==> #[trigger] calc_outcome(
                old(stores)@[j],
                final(stores)@[j],
                results@[j],
            ),
        forall|j: int|
            0 <= j < old(stores)@.len() ==> #[trigger] results@[j] == spec_calculate(
                old(stores)@[j]@,
            ),
{
    let mut results: Vec<Result<ChainCalcs, CalcError>> = Vec::new();
    let mut i: usize = 0;
    while i < stores.len()
        invariant
            i <= stores@.len(),
            stores@.len() == old(stores)@.len(),
            results@.len() == i,
            forall|j: int|
                i <= j < stores@.len() ==> #[trigger] stores@[j] == old(stores)@[j],
            forall|j: int|
                0 <= j < i ==> #[trigger] calc_outcome(old(stores)@[j], stores@[j], results@[j]),
            forall|j: int|
                0 <= j < i ==> #[trigger] results@[j] == spec_calculate(old(stores)@[j]@),
        decreases stores@.len() - i,
    {
        let ghost pre = stores@;
        let r = apply_calculation(&mut stores[i]);
        proof {
            assert(stores@[i as int]@.chain == pre[i as int]@.chain);
            assert forall|j: int| i < j < stores@.len() implies #[trigger] stores@[j] == old(
                stores,
            )@[j] by {
                assert(pre[j] == old(stores)@[j]);
            }
            assert forall|j: int| 0 <= j < i implies #[trigger] calc_outcome(
                old(stores)@[j],
                stores@[j],
                results@[j],
            ) by {
                assert(calc_outcome(old(stores)@[j], pre[j], results@[j]));
            }
            assert(pre[i as int] == old(stores)@[i as int]);
        }
        results.push(r);
        i = i + 1;
    }
    results
}

/// Law: a chain whose head block has no stored predecessor (or is itself
/// genesis) yields an empty window: no transactions counted and the window
/// starting at the head block itself, hence a zero-length window, which the
/// service reports as zero TPS.
pub proof fn lemma_single_block_window(blocks: Map<u64, Block>, h: u64, min_timestamp: int)
    requires
        blocks.contains_key(h),
        h == 0 || !blocks.contains_key((h - 1) as u64),
    ensures
        window_walk(blocks, h, min_timestamp) == (blocks[h]@.timestamp, 0int),
{
}

/// A uniform chain for this law: blocks at every height below `count`, one
/// second apart starting at `t0`, each carrying `k` transactions.
pub open spec fn uniform_chain(blocks: Map<u64, Block>, count: u64, t0: int, k: int) -> bool {
    forall|i: u64|
        i < count ==> #[trigger] blocks.contains_key(i) && blocks[i]@.timestamp == t0 + i
            && blocks[i]@.num_txs == k
}

proof fn lemma_uniform_chain_walk(
    blocks: Map<u64, Block>,
    count: u64,
    t0: int,
    k: int,
    d: int,
    cur: u64,
)
    requires
        uniform_chain(blocks, count, t0, k),
        0 < cur < count,
        0 <= d,
        d + 1 <= cur,
    ensures
        window_walk(blocks, cur, t0 + d) == (t0 + d, k * (cur - d)),
    decreases cur,
{
    assert(blocks.contains_key(cur) && blocks.contains_key((cur - 1) as u64));
    if cur == d + 1 {
        assert(blocks[(cur - 1) as u64]@.timestamp == t0 + d);
        assert(window_walk(blocks, cur, t0 + d) == (t0 + d, k * 1)) by {
            assert(blocks[cur]@.num_txs == k);
        }
    } else {
        lemma_uniform_chain_walk(blocks, count, t0, k, d, (cur - 1) as u64);
        assert(blocks[(cur - 1) as u64]@.timestamp == t0 + cur - 1 > t0 + d);
        assert(k * (cur - 1 - d) + k == k * (cur - d)) by (nonlinear_arith);
    }
}

/// Law: on a chain of blocks exactly one second apart, each carrying `k`
/// transactions, whose span exceeds one week, the backward walk from the
/// head covers exactly one week and counts `k` transactions for each of its
/// seconds — so the computed rate is exactly `k` transactions per second.
pub proof fn lemma_uniform_chain_tps(blocks: Map<u64, Block>, count: u64, t0: int, k: int)
    requires
        uniform_chain(blocks, count, t0, k),
        count > SECONDS_PER_WEEK,
    ensures
        window_walk(blocks, (count - 1) as u64, t0 + count - 1 - SECONDS_PER_WEEK) == (
            t0 + count - 1 - SECONDS_PER_WEEK,
            k * SECONDS_PER_WEEK,
        ),
{
    let d = count - 1 - SECONDS_PER_WEEK;
    lemma_uniform_chain_walk(blocks, count, t0, k, d as int, (count - 1) as u64);
}

} // verus!
