//! A block: an ordered list of transactions, linked to its predecessor by
//! hash, with a proof-of-work search over its nonce.

use vstd::prelude::*;
use vstd::string::StrSliceExecFns;
use vstd::string::StringExecFns;
use crate::hashing::{
    has_leading_zeros, hex_encode, is_hex_char, sha256_digest, sha256_of, spec_dec, spec_hex,
    spec_leading_zeros, u64_to_dec,
};
use crate::transaction::{spec_tx_string, Transaction};

verus! {

pub struct Block {
    pub index: u64,
    pub timestamp: u64,
    pub transactions: Vec<Transaction>,
    pub previous_hash: String,
    pub hash: String,
    pub nonce: u64,
}

/// The canonical rendering of a transaction list: the transactions'
/// renderings in order, joined by `'|'` (empty list gives the empty string).
pub open spec fn spec_txs_string(txs: Seq<Transaction>) -> Seq<char>
    decreases txs.len(),
{
    if txs.len() == 0 {
        Seq::empty()
    } else if txs.len() == 1 {
        spec_tx_string(txs[0])
    } else {
        spec_txs_string(txs.drop_last()) + seq!['|'] + spec_tx_string(txs.last())
    }
}

/// The hash preimage: index, timestamp, joined transaction string, previous
/// hash and nonce, concatenated with no separators between the five fields.
pub open spec fn spec_hash_input(
    index: u64,
    timestamp: u64,
    txs: Seq<Transaction>,
    previous_hash: Seq<char>,
    nonce: u64,
) -> Seq<char> {
    spec_dec(index as nat) + spec_dec(timestamp as nat) + spec_txs_string(txs) + previous_hash
        + spec_dec(nonce as nat)
}

/// The block hash: lowercase hex of the SHA-256 digest of the preimage.
pub open spec fn spec_block_hash(
    index: u64,
    timestamp: u64,
    txs: Seq<Transaction>,
    previous_hash: Seq<char>,
    nonce: u64,
) -> Seq<char> {
    spec_hex(sha256_of(spec_hash_input(index, timestamp, txs, previous_hash, nonce)))
}

/// The hash a block's current fields determine.
pub open spec fn spec_block_hash_of(b: Block) -> Seq<char> {
    spec_block_hash(b.index, b.timestamp, b.transactions@, b.previous_hash@, b.nonce)
}

/// A block is hash-consistent when its stored hash is the hash its fields
/// determine.
pub open spec fn block_wf(b: Block) -> bool {
    b.hash@ == spec_block_hash_of(b)
}

/// Relies on std's `SystemTime::now` and `SystemTime::duration_since`:
/// reads the clock as whole seconds since the Unix epoch, falling back to 0
/// where the clock reads before the epoch. Nothing is assumed of the value.
#[verifier::external_body]
fn now_secs() -> u64 {
    std::time::SystemTime::now()
        .duration_since(std::time::UNIX_EPOCH)
        .map(|d| d.as_secs())
        .unwrap_or(0)
}

impl Block {
    pub fn new(index: u64, transactions: Vec<Transaction>, previous_hash: String) -> (r: Block)
        ensures
            r.index == index,
            r.transactions == transactions,
            r.previous_hash == previous_hash,
            r.nonce == 0,
            block_wf(r),
    {
        let timestamp = now_secs();
        let mut block = Block {
            index,
            timestamp,
            transactions,
            previous_hash,
            hash: String::new(),
            nonce: 0,
        };
        let h = block.calculate_hash();
        block.hash = h;
        block
    }

    /// Recomputes the hash the block's current fields determine.
    pub fn calculate_hash(&self) -> (r: String)
        ensures
            r@ == spec_block_hash_of(*self),
            r@.len() == 64,
            forall|i: int| 0 <= i < r@.len() ==> is_hex_char(#[trigger] r@[i]),
    {
        let mut tx_string = String::new();
        let n = self.transactions.len();
        let mut i: usize = 0;
        proof {
            reveal_strlit("|");
            assert(tx_string@ =~= spec_txs_string(self.transactions@.take(0)));
        }
        while i < n
            invariant
                n == self.transactions@.len(),
                i <= n,
                tx_string@ == spec_txs_string(self.transactions@.take(i as int)),
                "|"@ == seq!['|'],
            decreases n - i,
        {
            if i > 0 {
                tx_string.append("|");
            }
            let rendered = self.transactions[i].render();
            tx_string.append(rendered.as_str());
            proof {
                let txs = self.transactions@;
                let upto = txs.take(i + 1 as int);
                assert(upto.drop_last() =~= txs.take(i as int));
                assert(upto.last() == txs[i as int]);
                assert(tx_string@ =~= spec_txs_string(upto));
            }
            i += 1;
        }
        proof {
            assert(self.transactions@.take(n as int) =~= self.transactions@);
        }
        let mut input = u64_to_dec(self.index);
        let ts_dec = u64_to_dec(self.timestamp);
        input.append(ts_dec.as_str());
        input.append(tx_string.as_str());
        input.append(self.previous_hash.as_str());
        let nonce_dec = u64_to_dec(self.nonce);
        input.append(nonce_dec.as_str());
        proof {
            assert(input@ =~= spec_hash_input(
                self.index,
                self.timestamp,
                self.transactions@,
                self.previous_hash@,
                self.nonce,
            ));
        }
        let digest = sha256_digest(input.as_str());
        let r = hex_encode(digest.as_slice());
        proof {
            crate::hashing::lemma_spec_hex_chars(digest@);
        }
        r
    }

    /// Searches for a nonce whose hash has at least `difficulty` leading
    /// `'0'` hex characters, trying nonces upward from the current one.
    /// Everything but the nonce and the hash is left as it was, the nonce
    /// never decreases, and every nonce between the starting one and the
    /// final one hashed short of the target, so the found nonce is the least
    /// qualifying one and a block already at the target is left unchanged.
    /// The search stops once the nonce space is exhausted, so the target is
    /// met unless the final nonce is the largest one and everything below it
    /// failed.
    pub fn mine(&mut self, difficulty: usize)
        requires
            block_wf(*old(self)),
        ensures
            final(self).index == old(self).index,
            final(self).timestamp == old(self).timestamp,
            final(self).transactions@ == old(self).transactions@,
            final(self).previous_hash == old(self).previous_hash,
            block_wf(*final(self)),
            final(self).nonce >= old(self).nonce,
            forall|m: u64|
                old(self).nonce <= m < final(self).nonce ==> !spec_leading_zeros(
                    spec_block_hash(
                        old(self).index,
                        old(self).timestamp,
                        old(self).transactions@,
                        old(self).previous_hash@,
                        m,
                    ),
                    difficulty as nat,
                ),
            spec_leading_zeros(final(self).hash@, difficulty as nat) || final(self).nonce
                == u64::MAX,
    {
        while self.nonce < u64::MAX && !has_leading_zeros(self.hash.as_str(), difficulty)
            invariant
                self.index == old(self).index,
                self.timestamp == old(self).timestamp,
                self.transactions@ == old(self).transactions@,
                self.previous_hash == old(self).previous_hash,
                block_wf(*self),
                self.nonce >= old(self).nonce,
                forall|m: u64|
                    old(self).nonce <= m < self.nonce ==> !spec_leading_zeros(
                        spec_block_hash(
                            old(self).index,
                            old(self).timestamp,
                            old(self).transactions@,
                            old(self).previous_hash@,
                            m,
                        ),
                        difficulty as nat,
                    ),
            decreases u64::MAX - self.nonce,
        {
            proof {
                assert(!spec_leading_zeros(
                    spec_block_hash(
                        old(self).index,
                        old(self).timestamp,
                        old(self).transactions@,
                        old(self).previous_hash@,
                        self.nonce,
                    ),
                    difficulty as nat,
                ));
            }
            self.nonce = self.nonce + 1;
            let h = self.calculate_hash();
            self.hash = h;
        }
    }
}

/// Law: the block hash is a pure function of index, timestamp, transaction
/// list, previous hash and nonce: blocks equal in those fields hash alike.
pub proof fn lemma_block_hash_deterministic(a: Block, b: Block)
    requires
        a.index == b.index,
        a.timestamp == b.timestamp,
        a.transactions@ == b.transactions@,
        a.previous_hash@ == b.previous_hash@,
        a.nonce == b.nonce,
    ensures
        spec_block_hash_of(a) == spec_block_hash_of(b),
{
}

} // verus!
