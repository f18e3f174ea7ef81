//! The block record as this service stores it.

use vstd::prelude::*;

use crate::chain::Chain;

verus! {

/// One imported block. Immutable once stored, but a later import pass may
/// overwrite it with a corrected version during reorganization repair.
pub struct Block {
    /// The network this block belongs to.
    pub chain: Chain,
    /// Height of the block; 0 is genesis.
    pub block_number: u64,
    /// Seconds since the epoch, as the chain reported it. Not guaranteed
    /// monotonic across reorganizations.
    pub timestamp: u64,
    /// Number of transactions the block contains.
    pub num_txs: u64,
    /// Opaque content identifier of this block.
    pub hash: String,
    /// Content identifier of the block's parent. Absent a reorganization,
    /// it equals the `hash` of the stored block one below.
    pub parent_hash: String,
}

/// Mathematical image of a [`Block`].
#[verifier::ext_equal]
pub struct BlockView {
    pub chain: Chain,
    pub block_number: int,
    pub timestamp: int,
    pub num_txs: int,
    pub hash: Seq<char>,
    pub parent_hash: Seq<char>,
}

impl View for Block {
    type V = BlockView;

    open spec fn view(&self) -> BlockView {
        BlockView {
            chain: self.chain,
            block_number: self.block_number as int,
            timestamp: self.timestamp as int,
            num_txs: self.num_txs as int,
            hash: self.hash@,
            parent_hash: self.parent_hash@,
        }
    }
}

impl Block {
    /// The height one below this block, or nothing at genesis.
    pub open spec fn spec_prev_block_number(self) -> Option<u64> {
        if self.block_number == 0 {
            None
        } else {
            Some((self.block_number - 1) as u64)
        }
    }

    /// The height one below this block, or nothing at genesis.
    pub fn prev_block_number(&self) -> (r: Option<u64>)
        ensures
            r == self.spec_prev_block_number(),
    {
        if self.block_number == 0 {
            None
        } else {
            Some(self.block_number - 1)
        }
    }

    /// An identical copy of this block.
    pub fn duplicate(&self) -> (r: Block)
        ensures
            r == *self,
    {
        Block {
            chain: self.chain,
            block_number: self.block_number,
            timestamp: self.timestamp,
            num_txs: self.num_txs,
            hash: self.hash.clone(),
            parent_hash: self.parent_hash.clone(),
        }
    }
}

} // verus!
