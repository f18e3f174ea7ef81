//! The reconciliation walk: one import pass for one chain.
//!
//! A pass compares the remote head to the local head pointer and, when they
//! differ, walks backward from the remote head, persisting each remote
//! block, until it reaches genesis, previously verified unchanged history,
//! or the initial-sync cap. Only after the walk completes is the head
//! pointer advanced, so storage stays recoverable across interrupted
//! passes.
//!
//! The remote chain is modelled here as a snapshot of what the node
//! currently serves: a head height and the blocks it can return. A block
//! the snapshot lacks is one the node has not propagated yet; against a
//! live node the service retries in place. Against a snapshot, the pass
//! names the missing height and leaves the store exactly as it was, so the
//! caller fetches that block into the snapshot and reruns the pass: the
//! rerun starts from the same pre-pass store, and an aborted attempt can
//! never mistake its own writes for previously verified history.

use vstd::prelude::*;
use std::collections::HashMap;

use crate::block::Block;
use crate::chain::Chain;
use crate::store::ChainStore;

verus! {

broadcast use vstd::std_specs::hash::group_hash_axioms;

/// On a chain with no prior import at all, the walk is capped at this many
/// blocks instead of running to genesis, bounding first-time sync.
pub const INITIAL_SYNC_CAP: u64 = 100;

/// Mathematical image of a [`RemoteChain`].
#[verifier::ext_equal]
pub struct RemoteView {
    pub chain: Chain,
    pub head: u64,
    pub blocks: Map<u64, Block>,
}

/// Snapshot of what a chain's node currently serves: its head height and
/// the blocks it can return by height. A height it cannot return yet is
/// simply absent.
pub struct RemoteChain {
    chain: Chain,
    head: u64,
    blocks: HashMap<u64, Block>,
}

impl View for RemoteChain {
    type V = RemoteView;

    closed spec fn view(&self) -> RemoteView {
        RemoteView { chain: self.chain, head: self.head, blocks: self.blocks@ }
    }
}

impl RemoteChain {
    /// Every block the snapshot serves is keyed by its own height and
    /// belongs to the snapshot's chain.
    pub open spec fn wf(self) -> bool {
        forall|n: u64| self@.blocks.contains_key(n) ==> (#[trigger] self@.blocks[n]).block_number
            == n && self@.blocks[n].chain == self@.chain
    }

    /// A snapshot for `chain` whose node reports head height `head` and
    /// serves no blocks yet.
    pub fn new(chain: Chain, head: u64) -> (r: RemoteChain)
        ensures
            r@.chain == chain,
            r@.head == head,
            r@.blocks == Map::<u64, Block>::empty(),
            r.wf(),
    {
        RemoteChain { chain, head, blocks: HashMap::new() }
    }

    /// Makes a block available from the snapshot, under its own height.
    pub fn add_block(&mut self, block: Block)
        requires
            block.chain == old(self)@.chain,
            old(self).wf(),
        ensures
            final(self)@ == (RemoteView {
                blocks: old(self)@.blocks.insert(block.block_number, block),
                ..old(self)@
            }),
            final(self).wf(),
    {
        let number = block.block_number;
        self.blocks.insert(number, block);
    }

    /// The head block height the node currently reports.
    pub fn head_block_number(&self) -> (r: u64)
        ensures
            r == self@.head,
    {
        self.head
    }

    /// The block at `number`, or nothing if the node has not propagated it.
    pub fn block(&self, number: u64) -> (r: Option<&Block>)
        ensures
            match r {
                Some(b) => self@.blocks.contains_key(number) && *b == self@.blocks[number],
                None => !self@.blocks.contains_key(number),
            },
    {
        self.blocks.get(&number)
    }
}

/// The local map holds, at height `n`, exactly the remote snapshot's block.
pub open spec fn stored_from_remote(
    local: Map<u64, Block>,
    remote_blocks: Map<u64, Block>,
    n: u64,
) -> bool {
    &&& local.contains_key(n)
    &&& remote_blocks.contains_key(n)
    &&& local[n] == remote_blocks[n]
}

/// Height `n` is the same in both maps: present in one exactly when present
/// in the other, and with the same block.
pub open spec fn unchanged_at(
    new_local: Map<u64, Block>,
    old_local: Map<u64, Block>,
    n: u64,
) -> bool {
    &&& new_local.contains_key(n) == old_local.contains_key(n)
    &&& (old_local.contains_key(n) ==> new_local[n] == old_local[n])
}

/// The stored block at height `prev` matches `parent_hash` and lies at or
/// below the verified head (or no head was ever verified): the history
/// below is previously verified and unchanged, so a walk may stop above it.
pub open spec fn reached_verified_history(
    local: Map<u64, Block>,
    parent_hash: Seq<char>,
    prev: u64,
    highest: Option<u64>,
) -> bool {
    &&& local.contains_key(prev)
    &&& local[prev]@.hash == parent_hash
    &&& match highest {
        None => true,
        Some(h) => prev <= h,
    }
}

/// After storing the remote block at height `n`, the walk has to continue
/// below it: the locally stored block one down is absent, or its hash does
/// not match (a reorganization), or it lies above the verified head (a
/// leftover of an interrupted earlier pass).
pub open spec fn walk_continues(
    local: Map<u64, Block>,
    remote_blocks: Map<u64, Block>,
    n: u64,
    highest: Option<u64>,
) -> bool
    recommends
        n >= 1,
{
    !reached_verified_history(local, remote_blocks[n]@.parent_hash, (n - 1) as u64, highest)
}

/// Adjacent stored blocks at heights `n` and `n - 1` form a valid
/// parent/child link.
pub open spec fn link_ok(blocks: Map<u64, Block>, n: u64) -> bool
    recommends
        n >= 1,
{
    &&& blocks.contains_key(n)
    &&& blocks.contains_key((n - 1) as u64)
    &&& blocks[n]@.parent_hash == blocks[(n - 1) as u64]@.hash
}

/// How a completed pass ended.
#[derive(Clone, Copy, PartialEq, Eq, Structural, Debug)]
pub enum ImportOutcome {
    /// The remote head equals the local head pointer: nothing to do.
    AlreadyCurrent,
    /// A backward walk stored the remote blocks at every height from
    /// `lowest_stored` up to the remote head.
    Imported { lowest_stored: u64 },
}

/// Why a pass could not complete this time.
#[derive(Clone, Copy, PartialEq, Eq, Structural, Debug)]
pub enum ImportError {
    /// The node has not propagated the block at this height yet; the pass
    /// is rerun later and retries from the then-current remote head.
    BlockNotYetAvailable { number: u64 },
}

/// One import pass for one chain, against a snapshot of the remote node.
///
/// When the remote head equals the local head pointer the store is left
/// untouched (re-running a pass with no new remote blocks changes
/// nothing). Otherwise the pass walks backward from the remote head to
/// find the first height whose predecessor is verified unchanged history,
/// then writes exactly that run of remote blocks and advances the head
/// pointer. Nothing is written until the walk has concluded: a pass that
/// stops because a block is not propagated yet leaves the store exactly as
/// it was, so it can be rerun against a grown snapshot without an aborted
/// attempt's own writes ever passing for verified history.
pub fn run_import(remote: &RemoteChain, store: &mut ChainStore) -> (r: Result<
    ImportOutcome,
    ImportError,
>)
    requires
        remote.wf(),
        old(store)@.chain == remote@.chain,
    ensures
        final(store)@.chain == old(store)@.chain,
        final(store)@.tps == old(store)@.tps,
        r == Ok::<ImportOutcome, ImportError>(ImportOutcome::AlreadyCurrent) <==> old(
            store,
        )@.highest == Some(remote@.head),
        r == Ok::<ImportOutcome, ImportError>(ImportOutcome::AlreadyCurrent) ==> final(store)@
            == old(store)@,
        match r {
            Ok(ImportOutcome::Imported { lowest_stored: lo }) => {
                &&& lo <= remote@.head
                &&& final(store)@.highest == Some(remote@.head)
                &&& forall|n: u64|
                    lo <= n <= remote@.head ==> #[trigger] stored_from_remote(
                        final(store)@.blocks,
                        remote@.blocks,
                        n,
                    )
                &&& forall|n: u64|
                    !(lo <= n <= remote@.head) ==> #[trigger] unchanged_at(
                        final(store)@.blocks,
                        old(store)@.blocks,
                        n,
                    )
                &&& forall|n: u64|
                    lo < n <= remote@.head ==> #[trigger] walk_continues(
                        old(store)@.blocks,
                        remote@.blocks,
                        n,
                        old(store)@.highest,
                    )
                &&& (old(store)@.highest is None ==> remote@.head - lo + 1 <= INITIAL_SYNC_CAP)
                &&& (lo == 0 || (old(store)@.highest is None && remote@.head - lo + 1
                    == INITIAL_SYNC_CAP) || (lo >= 1 && reached_verified_history(
                    old(store)@.blocks,
                    remote@.blocks[lo]@.parent_hash,
                    (lo - 1) as u64,
                    old(store)@.highest,
                )))
            },
            Ok(ImportOutcome::AlreadyCurrent) => true,
            Err(ImportError::BlockNotYetAvailable { number }) => {
                &&& number <= remote@.head
                &&& !remote@.blocks.contains_key(number)
                &&& final(store)@ == old(store)@
                &&& forall|n: u64|
                    number < n <= remote@.head ==> #[trigger] remote@.blocks.contains_key(n)
                &&& forall|n: u64|
                    number < n <= remote@.head ==> #[trigger] walk_continues(
                        old(store)@.blocks,
                        remote@.blocks,
                        n,
                        old(store)@.highest,
                    )
                &&& (old(store)@.highest is None ==> remote@.head - number < INITIAL_SYNC_CAP)
            },
        },
{
    let head = remote.head_block_number();
    let h_local = store.load_highest_block_number();
    match h_local {
        Some(h) if h == head => {
            return Ok(ImportOutcome::AlreadyCurrent);
        },
        _ => {},
    }
    // First the walk, against the untouched store: find the stop height.
    let mut number = head;
    loop
        invariant
            remote.wf(),
            store@ == old(store)@,
            store@.chain == remote@.chain,
            h_local == old(store)@.highest,
            h_local != Some(head),
            head == remote@.head,
            number <= head,
            forall|n: u64| number < n <= head ==> #[trigger] remote@.blocks.contains_key(n),
            forall|n: u64|
                number < n <= head ==> #[trigger] walk_continues(
                    old(store)@.blocks,
                    remote@.blocks,
                    n,
                    old(store)@.highest,
                ),
            h_local is None ==> head - number < INITIAL_SYNC_CAP,
        ensures
            store@ == old(store)@,
            number <= head,
            forall|n: u64| number <= n <= head ==> #[trigger] remote@.blocks.contains_key(n),
            forall|n: u64|
                number < n <= head ==> #[trigger] walk_continues(
                    old(store)@.blocks,
                    remote@.blocks,
                    n,
                    old(store)@.highest,
                ),
            h_local is None ==> head - number + 1 <= INITIAL_SYNC_CAP,
            (number == 0 || (h_local is None && head - number + 1 == INITIAL_SYNC_CAP) || (number
                >= 1 && reached_verified_history(
                old(store)@.blocks,
                remote@.blocks[number]@.parent_hash,
                (number - 1) as u64,
                old(store)@.highest,
            ))),
        decreases number,
    {
        let remote_block = match remote.block(number) {
            Some(b) => b,
            None => {
                return Err(ImportError::BlockNotYetAvailable { number });
            },
        };
        if number == 0 {
            // Genesis reached: the walk is done.
            break ;
        }
        if h_local.is_none() && head - number + 1 >= INITIAL_SYNC_CAP {
            // First-time sync: stop at the cap instead of walking to genesis.
            break ;
        }
        let stop = match store.load_block(number - 1) {
            None => {
                // Nothing stored below to compare against: keep walking.
                false
            },
            Some(prev_block) => {
                if prev_block.hash == remote_block.parent_hash {
                    // The block below matches. Stop only if it is at or
                    // below the verified head; a matching run above it is
                    // a leftover of an interrupted pass and is re-verified.
                    match h_local {
                        None => true,
                        Some(h) => number - 1 <= h,
                    }
                } else {
                    // Reorganization detected: the stale block below will
                    // be overwritten.
                    false
                }
            },
        };
        proof {
            if stop {
                assert(reached_verified_history(
                    old(store)@.blocks,
                    remote@.blocks[number]@.parent_hash,
                    (number - 1) as u64,
                    old(store)@.highest,
                ));
            } else {
                assert(walk_continues(
                    old(store)@.blocks,
                    remote@.blocks,
                    number,
                    old(store)@.highest,
                ));
            }
        }
        if stop {
            break ;
        }
        number = number - 1;
    }
    // The walk concluded: write the run and only then advance the head.
    let lowest = number;
    let mut n = lowest;
    loop
        invariant_except_break
            forall|k: u64|
                !(lowest <= k < n) ==> #[trigger] unchanged_at(
                    store@.blocks,
                    old(store)@.blocks,
                    k,
                ),
        invariant
            remote.wf(),
            store@.chain == remote@.chain,
            store@.chain == old(store)@.chain,
            store@.tps == old(store)@.tps,
            store@.highest == old(store)@.highest,
            head == remote@.head,
            lowest <= n <= head,
            forall|k: u64| lowest <= k <= head ==> #[trigger] remote@.blocks.contains_key(k),
            forall|k: u64|
                lowest <= k < n ==> #[trigger] stored_from_remote(
                    store@.blocks,
                    remote@.blocks,
                    k,
                ),
        ensures
            store@.chain == old(store)@.chain,
            store@.tps == old(store)@.tps,
            store@.highest == old(store)@.highest,
            forall|k: u64|
                lowest <= k <= head ==> #[trigger] stored_from_remote(
                    store@.blocks,
                    remote@.blocks,
                    k,
                ),
            forall|k: u64|
                !(lowest <= k <= head) ==> #[trigger] unchanged_at(
                    store@.blocks,
                    old(store)@.blocks,
                    k,
                ),
        decreases head - n,
    {
        let remote_block = remote.block(n).unwrap();
        let ghost pre = store@;
        store.store_block(remote_block.duplicate());
        proof {
            assert(store@.blocks == pre.blocks.insert(n, remote@.blocks[n]));
            assert forall|k: u64| lowest <= k <= n implies #[trigger] stored_from_remote(
                store@.blocks,
                remote@.blocks,
                k,
            ) by {
                if k != n {
                    assert(stored_from_remote(pre.blocks, remote@.blocks, k));
                }
            }
            assert forall|k: u64| !(lowest <= k <= n) implies #[trigger] unchanged_at(
                store@.blocks,
                old(store)@.blocks,
                k,
            ) by {
                assert(unchanged_at(pre.blocks, old(store)@.blocks, k));
            }
        }
        if n == head {
            break ;
        }
        n = n + 1;
    }
    let ghost at_exit = store@;
    store.store_highest_block_number(head);
    proof {
        assert(store@.blocks == at_exit.blocks);
        assert forall|k: u64| lowest <= k <= head implies #[trigger] stored_from_remote(
            store@.blocks,
            remote@.blocks,
            k,
        ) by {
            assert(stored_from_remote(at_exit.blocks, remote@.blocks, k));
        }
        assert forall|k: u64| !(lowest <= k <= head) implies #[trigger] unchanged_at(
            store@.blocks,
            old(store)@.blocks,
            k,
        ) by {
            assert(unchanged_at(at_exit.blocks, old(store)@.blocks, k));
        }
    }
    Ok(ImportOutcome::Imported { lowest_stored: lowest })
}

/// Law: after a successful import pass over a remote chain whose own
/// parent links are consistent, no two adjacent stored blocks violate
/// `parent_hash == hash` anywhere from the new head down to the walk's
/// stop point, and when the walk stopped by matching previously verified
/// history, the link from the stop point into that history holds as well.
///
/// The premises are exactly what [`run_import`] ensures of a pass that
/// returned `Imported { lowest_stored: lo }`, plus the consistency of the
/// remote chain itself over the walked range.
pub proof fn lemma_no_adjacent_violation_after_import(
    old_blocks: Map<u64, Block>,
    new_blocks: Map<u64, Block>,
    remote: RemoteView,
    highest: Option<u64>,
    lo: u64,
)
    requires
        lo <= remote.head,
        forall|n: u64|
            lo <= n <= remote.head ==> #[trigger] stored_from_remote(new_blocks, remote.blocks, n),
        forall|n: u64|
            !(lo <= n <= remote.head) ==> #[trigger] unchanged_at(new_blocks, old_blocks, n),
        forall|n: u64| lo < n <= remote.head ==> #[trigger] link_ok(remote.blocks, n),
    ensures
        forall|n: u64| lo < n <= remote.head ==> #[trigger] link_ok(new_blocks, n),
        lo >= 1 && reached_verified_history(
            old_blocks,
            remote.blocks[lo]@.parent_hash,
            (lo - 1) as u64,
            highest,
        ) ==> link_ok(new_blocks, lo),
{
    assert forall|n: u64| lo < n <= remote.head implies #[trigger] link_ok(new_blocks, n) by {
        assert(link_ok(remote.blocks, n));
        assert(stored_from_remote(new_blocks, remote.blocks, n));
        assert(stored_from_remote(new_blocks, remote.blocks, (n - 1) as u64));
    }
    if lo >= 1 && reached_verified_history(
        old_blocks,
        remote.blocks[lo]@.parent_hash,
        (lo - 1) as u64,
        highest,
    ) {
        let prev = (lo - 1) as u64;
        assert(unchanged_at(new_blocks, old_blocks, prev));
        assert(stored_from_remote(new_blocks, remote.blocks, lo));
    }
}

} // verus!
