use vstd::prelude::*;

verus! {

/// The typed outcomes the core surfaces to its callers. The core never
/// prints, logs or retries; callers decide what to do with these.
#[derive(Clone, Copy, Debug, PartialEq, Eq, Structural)]
pub enum ChainError {
    /// No receipt has been committed for this hash: the transaction is
    /// either unknown or still pending, and this outcome alone cannot
    /// tell the two apart.
    TransactionNotFound(u64),
    /// A commit found a receipt already recorded under the same hash: an
    /// internal-consistency violation that stops the offending cycle
    /// rather than silently overwriting the existing receipt.
    DuplicateCommit(u64),
}

} // verus!
