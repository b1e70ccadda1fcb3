//! The chain: an append-only sequence of blocks anchored at a genesis block,
//! plus the pool of transactions waiting to be mined.

use vstd::prelude::*;
use vstd::string::StringExecFns;
use crate::block::{block_wf, spec_block_hash, spec_block_hash_of, Block};
use crate::hashing::spec_leading_zeros;
use crate::transaction::{spec_fee, Transaction};

verus! {

pub struct Blockchain {
    pub chain: Vec<Block>,
    pub pending_transactions: Vec<Transaction>,
    pub difficulty: usize,
    pub mining_reward: u64,
}

/// Block `i` of a chain is sound: its stored hash is the hash its fields
/// determine, and its stored previous hash is its predecessor's stored hash.
pub open spec fn spec_block_linked(chain: Seq<Block>, i: int) -> bool {
    chain[i].hash@ == spec_block_hash_of(chain[i]) && chain[i].previous_hash@ == chain[i
        - 1].hash@
}

/// A chain is valid when every block after the genesis block is sound.
/// A chain of length 0 or 1 is trivially valid.
pub open spec fn spec_chain_valid(chain: Seq<Block>) -> bool {
    forall|i: int| 1 <= i < chain.len() ==> #[trigger] spec_block_linked(chain, i)
}

/// The genesis block: index 0, no transactions, previous hash "0", nonce 0
/// (it is constructed, never mined), and hash-consistent.
pub open spec fn spec_genesis(b: Block) -> bool {
    b.index == 0 && b.transactions@.len() == 0 && b.previous_hash@ == seq!['0'] && b.nonce == 0
        && block_wf(b)
}

/// The chain's standing invariant: it is anchored at a genesis block and
/// every later block is sound. A fresh chain establishes it and the mutating
/// operations preserve it.
pub open spec fn spec_blockchain_wf(c: Blockchain) -> bool {
    c.chain@.len() >= 1 && spec_genesis(c.chain@[0]) && spec_chain_valid(c.chain@)
}

/// Clones a transaction list element for element.
fn clone_transactions(v: &Vec<Transaction>) -> (r: Vec<Transaction>)
    ensures
        r@ == v@,
{
    let mut r: Vec<Transaction> = Vec::new();
    let mut i: usize = 0;
    while i < v.len()
        invariant
            i <= v@.len(),
            r@ == v@.take(i as int),
        decreases v@.len() - i,
    {
        r.push(v[i].clone());
        proof {
            assert(r@ =~= v@.take(i + 1 as int));
        }
        i += 1;
    }
    proof {
        assert(v@.take(v@.len() as int) =~= v@);
    }
    r
}

impl Blockchain {
    pub fn new() -> (r: Blockchain)
        ensures
            r.chain@.len() == 1,
            spec_genesis(r.chain@[0]),
            spec_chain_valid(r.chain@),
            r.pending_transactions@.len() == 0,
            r.difficulty == 2,
            r.mining_reward == 10,
            spec_blockchain_wf(r),
    {
        proof {
            reveal_strlit("0");
        }
        let genesis = Block::new(0, Vec::new(), "0".to_owned());
        let mut chain: Vec<Block> = Vec::new();
        chain.push(genesis);
        proof {
            assert("0"@ =~= seq!['0']);
        }
        Blockchain { chain, pending_transactions: Vec::new(), difficulty: 2, mining_reward: 10 }
    }

    /// Appends a transaction to the pending pool. Nothing is validated:
    /// this ledger records transfers, it does not track balances.
    pub fn add_transaction(&mut self, transaction: Transaction)
        ensures
            final(self).pending_transactions@ == old(self).pending_transactions@.push(
                transaction,
            ),
            final(self).chain == old(self).chain,
            final(self).difficulty == old(self).difficulty,
            final(self).mining_reward == old(self).mining_reward,
            spec_blockchain_wf(*old(self)) ==> spec_blockchain_wf(*final(self)),
    {
        self.pending_transactions.push(transaction);
    }

    /// Packages the pending pool, plus one reward transaction to
    /// `miner_address`, into a new block; mines it at the chain's
    /// difficulty; appends it; and clears the pool.
    pub fn mine_pending(&mut self, miner_address: &str)
        requires
            old(self).chain@.len() >= 1,
        ensures
            final(self).chain@.len() == old(self).chain@.len() + 1,
            final(self).chain@.take(old(self).chain@.len() as int) == old(self).chain@,
            block_wf(final(self).chain@.last()),
            final(self).chain@.last().index == old(self).chain@.len(),
            final(self).chain@.last().previous_hash@ == old(self).chain@.last().hash@,
            spec_leading_zeros(final(self).chain@.last().hash@, old(self).difficulty as nat) || (
            final(self).chain@.last().nonce == u64::MAX && forall|m: u64|
                m < u64::MAX ==> !spec_leading_zeros(
                    spec_block_hash(
                        final(self).chain@.last().index,
                        final(self).chain@.last().timestamp,
                        final(self).chain@.last().transactions@,
                        final(self).chain@.last().previous_hash@,
                        m,
                    ),
                    old(self).difficulty as nat,
                )),
            final(self).chain@.last().transactions@.len() == old(
                self,
            ).pending_transactions@.len() + 1,
            final(self).chain@.last().transactions@.take(
                old(self).pending_transactions@.len() as int,
            ) == old(self).pending_transactions@,
            final(self).chain@.last().transactions@.last().from@ == "System"@,
            final(self).chain@.last().transactions@.last().to@ == miner_address@,
            final(self).chain@.last().transactions@.last().amount == old(self).mining_reward,
            final(self).chain@.last().transactions@.last().fee == 0,
            final(self).pending_transactions@.len() == 0,
            final(self).difficulty == old(self).difficulty,
            final(self).mining_reward == old(self).mining_reward,
            spec_chain_valid(old(self).chain@) ==> spec_chain_valid(final(self).chain@),
            spec_blockchain_wf(*old(self)) ==> spec_blockchain_wf(*final(self)),
    {
        let reward_amount = self.mining_reward;
        proof {
            assert(spec_fee(reward_amount, 0) == 0);
        }
        let reward_tx = Transaction::new("System", miner_address, reward_amount, 0);
        self.pending_transactions.push(reward_tx);

        let last_index = self.chain.len() - 1;
        let previous_hash = self.chain[last_index].hash.clone();
        let txs = clone_transactions(&self.pending_transactions);
        let mut block = Block::new(self.chain.len() as u64, txs, previous_hash);
        let ghost pre = block;
        block.mine(self.difficulty);

        self.chain.push(block);
        self.pending_transactions.clear();

        proof {
            let old_chain = old(self).chain@;
            let new_chain = self.chain@;
            assert(new_chain.take(old_chain.len() as int) =~= old_chain);
            assert(self.chain@.last().transactions@.take(
                old(self).pending_transactions@.len() as int,
            ) =~= old(self).pending_transactions@);
            let b = new_chain.last();
            if !spec_leading_zeros(b.hash@, old(self).difficulty as nat) {
                assert forall|m: u64| m < u64::MAX implies !spec_leading_zeros(
                    spec_block_hash(b.index, b.timestamp, b.transactions@, b.previous_hash@, m),
                    old(self).difficulty as nat,
                ) by {
                    assert(!spec_leading_zeros(
                        spec_block_hash(
                            pre.index,
                            pre.timestamp,
                            pre.transactions@,
                            pre.previous_hash@,
                            m,
                        ),
                        old(self).difficulty as nat,
                    ));
                }
            }
            if spec_chain_valid(old_chain) {
                assert forall|i: int| 1 <= i < new_chain.len() implies #[trigger] spec_block_linked(
                    new_chain,
                    i,
                ) by {
                    if i < old_chain.len() {
                        assert(spec_block_linked(old_chain, i));
                    }
                }
            }
        }
    }

    /// Walks the chain from block 1 on, checking each block's stored hash
    /// against a recomputation and its previous-hash link; reports whether
    /// no violation exists.
    pub fn is_valid(&self) -> (r: bool)
        ensures
            r == spec_chain_valid(self.chain@),
    {
        let n = self.chain.len();
        let mut i: usize = 1;
        while i < n
            invariant
                n == self.chain@.len(),
                1 <= i,
                forall|j: int| 1 <= j < i ==> #[trigger] spec_block_linked(self.chain@, j),
            decreases n - i,
        {
            let current = &self.chain[i];
            let previous = &self.chain[i - 1];
            let recomputed = current.calculate_hash();
            if !(current.hash == recomputed) {
                proof {
                    assert(!spec_block_linked(self.chain@, i as int));
                }
                return false;
            }
            if !(current.previous_hash == previous.hash) {
                proof {
                    assert(!spec_block_linked(self.chain@, i as int));
                }
                return false;
            }
            i += 1;
        }
        true
    }
}

impl Default for Blockchain {
    fn default() -> (r: Blockchain)
        ensures
            r.chain@.len() == 1,
            spec_genesis(r.chain@[0]),
            spec_chain_valid(r.chain@),
            r.pending_transactions@.len() == 0,
            r.difficulty == 2,
            r.mining_reward == 10,
            spec_blockchain_wf(r),
    {
        Blockchain::new()
    }
}

/// Law (tamper detection, the provable direction): a chain holding a block
/// whose stored hash is not the hash its fields determine is not valid, so
/// altering an appended block's fields without updating its hash to match
/// makes validation fail.
pub proof fn lemma_stored_hash_mismatch_invalidates(chain: Seq<Block>, i: int)
    requires
        1 <= i < chain.len(),
        chain[i].hash@ != spec_block_hash_of(chain[i]),
    ensures
        !spec_chain_valid(chain),
{
    assert(!spec_block_linked(chain, i));
}

} // verus!
