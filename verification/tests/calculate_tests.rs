use realtps_import::block::Block;
use realtps_import::calculate::{
    apply_calculation, calculate_for_chain, timestamp_anomalies, CalcError, SECONDS_PER_WEEK,
};
use realtps_import::chain::Chain;
use realtps_import::store::{ChainCalcs, ChainStore};

fn block(chain: Chain, number: u64, timestamp: u64, num_txs: u64) -> Block {
    let parent = if number == 0 { String::new() } else { format!("h{}", number - 1) };
    Block {
        chain,
        block_number: number,
        timestamp,
        num_txs,
        hash: format!("h{}", number),
        parent_hash: parent,
    }
}

/// The figure the service persists: the ratio, with non-finite values
/// normalized to zero before storage.
fn tps_value(calcs: &ChainCalcs) -> f64 {
    let tps = calcs.num_txs as f64 / calcs.total_seconds as f64;
    if tps.is_nan() || tps.is_infinite() {
        0.0
    } else {
        tps
    }
}

#[test]
fn uniform_chain_yields_k_tps() {
    // Blocks exactly one second apart, 5 transactions each, spanning more
    // than a week: the computed rate is exactly 5 TPS.
    let chain = Chain::Ethereum;
    let mut store = ChainStore::new(chain);
    let count = SECONDS_PER_WEEK + 2;
    let t0 = 10_000_000u64;
    for n in 0..count {
        store.store_block(block(chain, n, t0 + n, 5));
    }
    store.store_highest_block_number(count - 1);
    let calcs = calculate_for_chain(&store).expect("calculation");
    assert_eq!(calcs.total_seconds as u64, SECONDS_PER_WEEK);
    assert_eq!(calcs.num_txs as u64, 5 * SECONDS_PER_WEEK);
    assert!((tps_value(&calcs) - 5.0).abs() < 1e-9);
}

#[test]
fn single_block_chain_yields_zero_tps() {
    let chain = Chain::Ethereum;
    let mut store = ChainStore::new(chain);
    store.store_block(block(chain, 7, 10_000_000, 42));
    store.store_highest_block_number(7);
    let calcs = calculate_for_chain(&store).expect("calculation");
    assert_eq!(calcs.num_txs, 0);
    assert_eq!(calcs.total_seconds, 0);
    assert_eq!(tps_value(&calcs), 0.0);
}

#[test]
fn genesis_only_chain_yields_zero_tps() {
    let chain = Chain::Ethereum;
    let mut store = ChainStore::new(chain);
    store.store_block(block(chain, 0, 10_000_000, 42));
    store.store_highest_block_number(0);
    let calcs = calculate_for_chain(&store).expect("calculation");
    assert_eq!(calcs.num_txs, 0);
    assert_eq!(calcs.total_seconds, 0);
    assert_eq!(tps_value(&calcs), 0.0);
}

#[test]
fn never_imported_chain_reports_no_data() {
    let store = ChainStore::new(Chain::Ethereum);
    assert_eq!(calculate_for_chain(&store), Err(CalcError::NoData));
}

#[test]
fn missing_head_block_is_reported() {
    let mut store = ChainStore::new(Chain::Ethereum);
    store.store_highest_block_number(3);
    assert_eq!(calculate_for_chain(&store), Err(CalcError::MissingHeadBlock));
}

#[test]
fn head_timestamp_below_a_week_underflows() {
    let chain = Chain::Ethereum;
    let mut store = ChainStore::new(chain);
    store.store_block(block(chain, 1, SECONDS_PER_WEEK - 1, 3));
    store.store_highest_block_number(1);
    assert_eq!(calculate_for_chain(&store), Err(CalcError::WindowUnderflow));
}

#[test]
fn transaction_count_overflow_is_chain_scoped() {
    // Two counted blocks carry u32::MAX transactions each: the window's
    // count exceeds the bounded range, the calculation reports an error,
    // and the previously persisted TPS figure stays untouched.
    let chain = Chain::Ethereum;
    let mut store = ChainStore::new(chain);
    let t0 = 10_000_000u64;
    store.store_block(block(chain, 0, t0, 1));
    store.store_block(block(chain, 1, t0 + 1, u32::MAX as u64));
    store.store_block(block(chain, 2, t0 + 2, u32::MAX as u64));
    store.store_highest_block_number(2);
    let previous = ChainCalcs { chain, num_txs: 9, total_seconds: 3 };
    store.store_tps(previous);
    let r = apply_calculation(&mut store);
    assert_eq!(r, Err(CalcError::TxsOverflow));
    assert_eq!(store.load_tps(), Some(previous));
}

#[test]
fn running_sum_overflow_is_reported() {
    let chain = Chain::Ethereum;
    let mut store = ChainStore::new(chain);
    let t0 = 10_000_000u64;
    store.store_block(block(chain, 0, t0, 1));
    store.store_block(block(chain, 1, t0 + 1, u64::MAX));
    store.store_block(block(chain, 2, t0 + 2, u64::MAX));
    store.store_highest_block_number(2);
    assert_eq!(calculate_for_chain(&store), Err(CalcError::TxSumOverflow));
}

#[test]
fn non_monotonic_predecessor_above_head_timestamp_is_an_order_violation() {
    // The predecessor reports a later timestamp than the head and the walk
    // then runs out of history there: the window would start after it ends.
    let chain = Chain::Ethereum;
    let mut store = ChainStore::new(chain);
    let t = 10_000_000u64;
    store.store_block(block(chain, 9, t + 5, 7));
    store.store_block(block(chain, 10, t, 3));
    store.store_highest_block_number(10);
    assert_eq!(calculate_for_chain(&store), Err(CalcError::WindowOrderViolation));
    assert_eq!(timestamp_anomalies(&store), vec![10]);
}

#[test]
fn non_monotonic_timestamp_inside_window_is_tolerated() {
    // One out-of-order timestamp strictly inside the window is logged as an
    // anomaly by the service but does not fail the calculation.
    let chain = Chain::Ethereum;
    let mut store = ChainStore::new(chain);
    let t0 = 10_000_000u64;
    store.store_block(block(chain, 0, t0, 1));
    store.store_block(block(chain, 1, t0 + 10, 4));
    store.store_block(block(chain, 2, t0 + 5, 8));
    store.store_highest_block_number(2);
    let calcs = calculate_for_chain(&store).expect("calculation");
    // Blocks 2 and 1 are counted; genesis bounds the window.
    assert_eq!(calcs.num_txs, 12);
    assert_eq!(calcs.total_seconds, 5);
    // The anomalous height is reported for the service to warn about.
    assert_eq!(timestamp_anomalies(&store), vec![2]);
}

#[test]
fn monotonic_chains_report_no_anomalies() {
    let chain = Chain::Ethereum;
    let mut store = ChainStore::new(chain);
    let t0 = 10_000_000u64;
    store.store_block(block(chain, 0, t0, 1));
    store.store_block(block(chain, 1, t0 + 4, 8));
    store.store_highest_block_number(1);
    assert_eq!(timestamp_anomalies(&store), Vec::<u64>::new());
    assert_eq!(timestamp_anomalies(&ChainStore::new(chain)), Vec::<u64>::new());
}

#[test]
fn successful_calculation_is_persisted() {
    let chain = Chain::Ethereum;
    let mut store = ChainStore::new(chain);
    let t0 = 10_000_000u64;
    store.store_block(block(chain, 0, t0, 1));
    store.store_block(block(chain, 1, t0 + 4, 8));
    store.store_highest_block_number(1);
    let r = apply_calculation(&mut store).expect("calculation");
    assert_eq!(store.load_tps(), Some(r));
    assert_eq!(r.num_txs, 8);
    assert_eq!(r.total_seconds, 4);
    assert!((tps_value(&r) - 2.0).abs() < 1e-9);
}
