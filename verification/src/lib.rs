use vstd::prelude::*;

pub mod hashing;
pub mod block;
pub mod blockchain;
pub mod transaction;
pub mod wallet;

pub use block::Block;
pub use blockchain::Blockchain;
pub use transaction::Transaction;
pub use wallet::Wallet;

verus! {

} // verus!
