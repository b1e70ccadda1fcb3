//! A transfer with a derived fee. Amounts are kept in whole currency units;
//! the fee is a percentage of the amount, rounded down.

use vstd::prelude::*;
use vstd::string::StringExecFns;
use crate::hashing::spec_dec;

verus! {

pub struct Transaction {
    pub from: String,
    pub to: String,
    pub amount: u64,
    pub fee: u64,
}

/// The fee charged on `amount` at `fee_percent` percent, rounded down.
pub open spec fn spec_fee(amount: u64, fee_percent: u64) -> int {
    amount * fee_percent / 100
}

/// The amount a sender parts with: the transferred amount plus the fee.
pub open spec fn spec_total(t: Transaction) -> int {
    t.amount + t.fee
}

/// The canonical rendering of a transaction inside a block's hash preimage:
/// `<from>-><to>:<amount>:<fee>`.
pub open spec fn spec_tx_string(t: Transaction) -> Seq<char> {
    t.from@ + seq!['-', '>'] + t.to@ + seq![':'] + spec_dec(t.amount as nat) + seq![':']
        + spec_dec(t.fee as nat)
}

impl Transaction {
    pub fn new(from: &str, to: &str, amount: u64, fee_percent: u64) -> (r: Transaction)
        requires
            amount * fee_percent <= u64::MAX,
        ensures
            r.from@ == from@,
            r.to@ == to@,
            r.amount == amount,
            r.fee == spec_fee(amount, fee_percent),
    {
        let fee = amount * fee_percent / 100;
        Transaction { from: from.to_owned(), to: to.to_owned(), amount, fee }
    }

    pub fn total(&self) -> (r: u64)
        requires
            self.amount + self.fee <= u64::MAX,
        ensures
            r == spec_total(*self),
    {
        self.amount + self.fee
    }

    /// Renders this transaction in its canonical form.
    pub(crate) fn render(&self) -> (r: String)
        ensures
            r@ == spec_tx_string(*self),
    {
        proof {
            reveal_strlit("->");
            reveal_strlit(":");
        }
        let mut s = self.from.clone();
        s.append("->");
        s.append(self.to.as_str());
        s.append(":");
        let amount_dec = crate::hashing::u64_to_dec(self.amount);
        s.append(amount_dec.as_str());
        s.append(":");
        let fee_dec = crate::hashing::u64_to_dec(self.fee);
        s.append(fee_dec.as_str());
        proof {
            assert(s@ =~= spec_tx_string(*self));
        }
        s
    }
}

impl Clone for Transaction {
    fn clone(&self) -> (r: Self)
        ensures
            r == *self,
    {
        Transaction {
            from: self.from.clone(),
            to: self.to.clone(),
            amount: self.amount,
            fee: self.fee,
        }
    }
}

/// Law: a transaction built from `amount` and `fee_percent` has total
/// `amount + amount * fee_percent / 100`, exactly.
pub proof fn lemma_transaction_total(t: Transaction, amount: u64, fee_percent: u64)
    requires
        t.amount == amount,
        t.fee == spec_fee(amount, fee_percent),
    ensures
        spec_total(t) == amount + amount * fee_percent / 100,
{
}

} // verus!
