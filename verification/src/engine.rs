use vstd::prelude::*;

use crate::ledger::{spec_balance, spec_transfer, AccountState, LedgerState, TransferCheck};
use crate::transaction::{ExecStatus, Receipt, Transaction};
use crate::GAS_PER_TRANSFER;

verus! {

/// What executing one transaction against a ledger yields: the ledger
/// afterwards and the receipt. Execution always yields a receipt;
/// rejection causes (bad nonce, insufficient balance) are recorded as a
/// failed status, never raised as errors. The fixed gas amount is
/// recorded as consumed whether or not the transfer succeeded.
pub open spec fn spec_apply(
    m: Map<u64, AccountState>,
    t: Transaction,
    block_number: u64,
) -> (Map<u64, AccountState>, Receipt) {
    let res = spec_transfer(m, t.sender, t.recipient, t.value, t.nonce);
    (
        res.0,
        Receipt {
            transaction_hash: t.hash,
            status: if res.1 is Applied {
                ExecStatus::Success
            } else {
                ExecStatus::Failed
            },
            block_number,
            gas_used: GAS_PER_TRANSFER,
        },
    )
}

/// Apply one transaction to the ledger, producing its receipt.
pub fn apply(ledger: &mut LedgerState, t: &Transaction, block_number: u64) -> (receipt: Receipt)
    ensures
        final(ledger)@ == spec_apply(old(ledger)@, *t, block_number).0,
        receipt == spec_apply(old(ledger)@, *t, block_number).1,
{
    let check = ledger.apply_transfer(t.sender, t.recipient, t.value, t.nonce);
    let status = match check {
        TransferCheck::Applied => ExecStatus::Success,
        _ => ExecStatus::Failed,
    };
    Receipt { transaction_hash: t.hash, status, block_number, gas_used: GAS_PER_TRANSFER }
}

/// Law: a transaction whose sender balance is below its value changes no
/// account's balance — the ledger is untouched — yet its execution still
/// yields a receipt with failed status.
pub proof fn lemma_insufficient_balance_no_mutation(
    m: Map<u64, AccountState>,
    t: Transaction,
    block_number: u64,
)
    requires
        spec_balance(m, t.sender) < t.value,
    ensures
        spec_apply(m, t, block_number).0 == m,
        spec_apply(m, t, block_number).1.status is Failed,
{
}

} // verus!
