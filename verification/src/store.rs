//! In-memory model of the per-chain block store.
//!
//! The real service persists blocks on disk; this model keeps them in a
//! hash map and gives every operation of the store capability an exact
//! contract: blocks keyed by height, a highest-known-height pointer, and
//! the latest TPS figure.

use vstd::prelude::*;
use std::collections::HashMap;

use crate::block::Block;
use crate::chain::Chain;

verus! {

broadcast use vstd::std_specs::hash::group_hash_axioms;

/// Result of one TPS calculation, kept as the exact ratio: transactions
/// counted over the window and the window's length in seconds.
#[derive(Clone, Copy, PartialEq, Eq, Structural, Debug)]
pub struct ChainCalcs {
    pub chain: Chain,
    pub num_txs: u32,
    pub total_seconds: u32,
}

/// Mathematical image of a [`ChainStore`].
#[verifier::ext_equal]
pub struct StoreView {
    pub chain: Chain,
    pub blocks: Map<u64, Block>,
    pub highest: Option<u64>,
    pub tps: Option<ChainCalcs>,
}

/// Everything stored locally for one chain.
pub struct ChainStore {
    chain: Chain,
    blocks: HashMap<u64, Block>,
    highest_block_number: Option<u64>,
    tps: Option<ChainCalcs>,
}

impl View for ChainStore {
    type V = StoreView;

    closed spec fn view(&self) -> StoreView {
        StoreView {
            chain: self.chain,
            blocks: self.blocks@,
            highest: self.highest_block_number,
            tps: self.tps,
        }
    }
}

impl ChainStore {
    /// A store for `chain` holding nothing yet.
    pub fn new(chain: Chain) -> (r: ChainStore)
        ensures
            r@.chain == chain,
            r@.blocks == Map::<u64, Block>::empty(),
            r@.highest is None,
            r@.tps is None,
    {
        ChainStore {
            chain,
            blocks: HashMap::new(),
            highest_block_number: None,
            tps: None,
        }
    }

    /// The chain this store belongs to.
    pub fn chain(&self) -> (r: Chain)
        ensures
            r == self@.chain,
    {
        self.chain
    }

    /// The highest block number believed fully imported, if any pass has
    /// ever completed.
    pub fn load_highest_block_number(&self) -> (r: Option<u64>)
        ensures
            r == self@.highest,
    {
        self.highest_block_number
    }

    /// Advances the head pointer; everything else is untouched.
    pub fn store_highest_block_number(&mut self, number: u64)
        ensures
            final(self)@ == (StoreView { highest: Some(number), ..old(self)@ }),
    {
        self.highest_block_number = Some(number);
    }

    /// The stored block at `number`, if present.
    pub fn load_block(&self, number: u64) -> (r: Option<&Block>)
        ensures
            match r {
                Some(b) => self@.blocks.contains_key(number) && *b == self@.blocks[number],
                None => !self@.blocks.contains_key(number),
            },
    {
        self.blocks.get(&number)
    }

    /// Upserts a block under its height; an overwrite is a legitimate
    /// reorganization repair, not an error.
    pub fn store_block(&mut self, block: Block)
        requires
            block.chain == old(self)@.chain,
        ensures
            final(self)@ == (StoreView {
                blocks: old(self)@.blocks.insert(block.block_number, block),
                ..old(self)@
            }),
    {
        let number = block.block_number;
        self.blocks.insert(number, block);
    }

    /// The latest persisted TPS figure, if one was ever computed.
    pub fn load_tps(&self) -> (r: Option<ChainCalcs>)
        ensures
            r == self@.tps,
    {
        self.tps
    }

    /// Persists a freshly computed TPS figure; everything else is untouched.
    pub fn store_tps(&mut self, calcs: ChainCalcs)
        ensures
            final(self)@ == (StoreView { tps: Some(calcs), ..old(self)@ }),
    {
        self.tps = Some(calcs);
    }
}

} // verus!
