pub mod chain;
pub mod engine;
pub mod error;
pub mod ledger;
pub mod mempool;
pub mod store;
pub mod transaction;

pub use crate::chain::Chain;
pub use crate::error::ChainError;
pub use crate::ledger::{AccountState, LedgerState, TransferCheck};
pub use crate::mempool::Mempool;
pub use crate::store::TransactionStore;
pub use crate::transaction::{ExecStatus, Receipt, SignedTransaction, Transaction};

use vstd::prelude::*;

verus! {

/// Gas recorded as consumed by every executed transfer, whether it
/// succeeded or failed: a rejected transaction is still a billable
/// event once it has been included in a block.
pub const GAS_PER_TRANSFER: u64 = 21000;

} // verus!
