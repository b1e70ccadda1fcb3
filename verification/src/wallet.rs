//! A wallet: a stable pseudonymous address derived from an owner name by
//! hashing it and keeping the first forty hex digits behind an "0x" prefix.

use vstd::prelude::*;
use vstd::string::StringExecFns;
use crate::hashing::{hex_encode, sha256_digest, sha256_of, spec_hex};

verus! {

pub struct Wallet {
    pub owner: String,
    pub address: String,
}

/// The address an owner name determines: `"0x"` followed by the first forty
/// hex digits of the SHA-256 digest of the name.
pub open spec fn spec_wallet_address(owner: Seq<char>) -> Seq<char> {
    seq!['0', 'x'] + spec_hex(sha256_of(owner)).take(40)
}

impl Wallet {
    pub fn new(owner: &str) -> (r: Wallet)
        ensures
            r.owner@ == owner@,
            r.address@ == spec_wallet_address(owner@),
            r.address@.len() == 42,
            r.address@[0] == '0',
            r.address@[1] == 'x',
    {
        let address = Wallet::generate_address(owner);
        Wallet { owner: owner.to_owned(), address }
    }

    fn generate_address(owner: &str) -> (r: String)
        ensures
            r@ == spec_wallet_address(owner@),
            r@.len() == 42,
    {
        let mut digest = sha256_digest(owner);
        let ghost full = digest@;
        digest.truncate(20);
        let hex40 = hex_encode(digest.as_slice());
        proof {
            reveal_strlit("0x");
        }
        let mut address = "0x".to_owned();
        address.append(hex40.as_str());
        proof {
            assert(digest@ =~= full.take(20));
            assert(spec_hex(full.take(20)) =~= spec_hex(full).take(40));
            assert("0x"@ =~= seq!['0', 'x']);
            assert(address@ =~= spec_wallet_address(owner@));
        }
        address
    }
}

/// Law: address derivation is deterministic. Wallets whose addresses were
/// derived from the same owner name carry the same address.
pub proof fn lemma_address_deterministic(a: Wallet, b: Wallet)
    requires
        a.owner@ == b.owner@,
        a.address@ == spec_wallet_address(a.owner@),
        b.address@ == spec_wallet_address(b.owner@),
    ensures
        a.address@ == b.address@,
{
}

} // verus!
