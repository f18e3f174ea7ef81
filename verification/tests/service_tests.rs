use realtps_import::block::Block;
use realtps_import::calculate::{calculate_all, CalcError};
use realtps_import::chain::{all_chains, chain_protocol, Chain, ChainProtocol};
use realtps_import::config::{get_rpc_url, RpcConfig};
use realtps_import::delay::{
    delay_with_jitter_ms, rescan_delay_ms, COURTESY_DELAY_MS, JOB_ERROR_DELAY_MS, RETRY_DELAY_MS,
};
use realtps_import::error::{print_error, JobError};
use realtps_import::scheduler::{init_jobs, job_follow_ups, Command, Job};
use realtps_import::store::ChainStore;

#[test]
fn all_chains_are_listed_once() {
    let chains = all_chains();
    assert_eq!(chains.len(), 18);
    for (i, a) in chains.iter().enumerate() {
        for b in chains.iter().skip(i + 1) {
            assert_ne!(a, b);
        }
    }
    assert!(chains.contains(&Chain::Ethereum));
    assert!(chains.contains(&Chain::Solana));
}

#[test]
fn protocol_families() {
    assert_eq!(chain_protocol(Chain::Solana), ChainProtocol::Solana);
    assert_eq!(chain_protocol(Chain::Ethereum), ChainProtocol::Evm);
    assert_eq!(chain_protocol(Chain::Celo), ChainProtocol::Evm);
}

#[test]
fn initial_job_sets() {
    let run = init_jobs(Command::Run);
    assert_eq!(run.len(), 19);
    assert_eq!(run[0], Job::Import(Chain::Arbitrum));
    assert_eq!(run[18], Job::Calculate);

    let import = init_jobs(Command::Import);
    assert_eq!(import.len(), 18);
    assert!(import.iter().all(|j| matches!(j, Job::Import(_))));

    let calculate = init_jobs(Command::Calculate);
    assert_eq!(calculate, vec![Job::Calculate]);
}

#[test]
fn every_finished_job_is_resubmitted() {
    let job = Job::Import(Chain::Fantom);
    assert_eq!(job_follow_ups(job, true), vec![job]);
    assert_eq!(job_follow_ups(job, false), vec![job]);
    assert_eq!(job_follow_ups(Job::Calculate, true), vec![Job::Calculate]);
}

#[test]
fn delay_policy_values() {
    assert_eq!(COURTESY_DELAY_MS, 100);
    assert_eq!(RETRY_DELAY_MS, 100);
    assert_eq!(JOB_ERROR_DELAY_MS, 1000);
    assert_eq!(rescan_delay_ms(Chain::Solana), 10_000);
    assert_eq!(rescan_delay_ms(Chain::Ethereum), 60_000);
    assert_eq!(delay_with_jitter_ms(1000, 37), 1037);
}

#[test]
fn error_lines_keep_the_causal_chain() {
    let e = JobError {
        message: String::from("error running job"),
        sources: vec![String::from("store failed"), String::from("disk full")],
    };
    let lines = print_error(&e);
    assert_eq!(
        lines,
        vec![
            String::from("error running job"),
            String::from("store failed"),
            String::from("disk full"),
        ]
    );
}

#[test]
fn rpc_urls_are_looked_up_per_chain() {
    let config = RpcConfig {
        chains: vec![
            (Chain::Ethereum, String::from("http://localhost:8545")),
            (Chain::Solana, String::from("http://localhost:8899")),
        ],
    };
    assert_eq!(
        get_rpc_url(&Chain::Solana, &config),
        Some(String::from("http://localhost:8899"))
    );
    assert_eq!(get_rpc_url(&Chain::Fuse, &config), None);
}

#[test]
fn one_chain_failure_does_not_affect_others() {
    let chain_a = Chain::Ethereum;
    let mut store_a = ChainStore::new(chain_a);
    store_a.store_block(Block {
        chain: chain_a,
        block_number: 0,
        timestamp: 10_000_000,
        num_txs: 6,
        hash: String::from("a0"),
        parent_hash: String::new(),
    });
    store_a.store_block(Block {
        chain: chain_a,
        block_number: 1,
        timestamp: 10_000_002,
        num_txs: 6,
        hash: String::from("a1"),
        parent_hash: String::from("a0"),
    });
    store_a.store_highest_block_number(1);

    // Never imported: calculation fails for this chain only.
    let store_b = ChainStore::new(Chain::Fantom);

    let mut stores = vec![store_a, store_b];
    let results = calculate_all(&mut stores);
    assert_eq!(results.len(), 2);
    let ok = results[0].expect("first chain calculates");
    assert_eq!(ok.num_txs, 6);
    assert_eq!(ok.total_seconds, 2);
    assert_eq!(results[1], Err(CalcError::NoData));
    assert_eq!(stores[0].load_tps(), Some(ok));
    assert_eq!(stores[1].load_tps(), None);
}
