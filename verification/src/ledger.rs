use vstd::prelude::*;

use std::collections::HashMap;

verus! {

broadcast use vstd::std_specs::hash::group_hash_axioms;

/// The recorded state of one account: its balance and the nonce its next
/// transaction must carry.
#[derive(Clone, Copy, Debug, PartialEq, Eq, Structural)]
pub struct AccountState {
    pub balance: u64,
    pub nonce: u64,
}

/// The outcome of one transfer check. Only `Applied` mutates the ledger;
/// every other outcome leaves it untouched and names the violation so
/// the execution engine can classify the receipt.
#[derive(Clone, Copy, Debug, PartialEq, Eq, Structural)]
pub enum TransferCheck {
    /// The transfer was applied: sender debited, recipient credited,
    /// sender nonce advanced.
    Applied,
    /// The transaction's nonce is not the sender's next expected nonce
    /// (stale or from the future).
    InvalidNonce,
    /// The sender's balance is below the transferred value.
    InsufficientBalance,
    /// Applying the transfer would push a counter past the machine's
    /// integer range (recipient balance or sender nonce).
    Overflow,
}

/// The ledger with no account recorded yet.
pub open spec fn no_accounts() -> Map<u64, AccountState> {
    Map::empty()
}

/// The balance recorded for an account; unknown accounts hold zero.
pub open spec fn spec_balance(m: Map<u64, AccountState>, account: u64) -> u64 {
    if m.contains_key(account) {
        m[account].balance
    } else {
        0
    }
}

/// The next expected nonce of an account; accounts that never transacted
/// expect nonce zero.
pub open spec fn spec_nonce(m: Map<u64, AccountState>, account: u64) -> u64 {
    if m.contains_key(account) {
        m[account].nonce
    } else {
        0
    }
}

/// What one transfer does to the ledger: the new ledger and the check
/// outcome. On any outcome other than `Applied` the ledger is returned
/// unchanged.
pub open spec fn spec_transfer(
    m: Map<u64, AccountState>,
    from: u64,
    to: u64,
    value: u64,
    nonce: u64,
) -> (Map<u64, AccountState>, TransferCheck) {
    if nonce != spec_nonce(m, from) {
        (m, TransferCheck::InvalidNonce)
    } else if spec_balance(m, from) < value {
        (m, TransferCheck::InsufficientBalance)
    } else if nonce == u64::MAX || (from != to && spec_balance(m, to) as int + value as int
        > u64::MAX as int) {
        (m, TransferCheck::Overflow)
    } else if from == to {
        (
            m.insert(
                from,
                AccountState { balance: spec_balance(m, from), nonce: (nonce + 1) as u64 },
            ),
            TransferCheck::Applied,
        )
    } else {
        (
            m.insert(
                from,
                AccountState {
                    balance: (spec_balance(m, from) - value) as u64,
                    nonce: (nonce + 1) as u64,
                },
            ).insert(
                to,
                AccountState {
                    balance: (spec_balance(m, to) + value) as u64,
                    nonce: spec_nonce(m, to),
                },
            ),
            TransferCheck::Applied,
        )
    }
}

/// The authoritative mapping from account to balance and nonce. Mutated
/// only through `apply_transfer` (driven by the execution engine) and
/// the genesis provisioning call.
pub struct LedgerState {
    accounts: HashMap<u64, AccountState>,
}

impl View for LedgerState {
    type V = Map<u64, AccountState>;

    closed spec fn view(&self) -> Map<u64, AccountState> {
        self.accounts@
    }
}

impl LedgerState {
    pub fn new() -> (l: LedgerState)
        ensures
            l@ == no_accounts(),
    {
        LedgerState { accounts: HashMap::new() }
    }

    /// Current balance of an account; zero for unknown accounts, never
    /// an error.
    pub fn get_balance(&self, account: u64) -> (balance: u64)
        ensures
            balance == spec_balance(self@, account),
    {
        match self.accounts.get(&account) {
            Option::Some(st) => st.balance,
            Option::None => 0,
        }
    }

    /// Next expected nonce of an account; zero for accounts that never
    /// transacted, never an error.
    pub fn get_nonce(&self, account: u64) -> (nonce: u64)
        ensures
            nonce == spec_nonce(self@, account),
    {
        match self.accounts.get(&account) {
            Option::Some(st) => st.nonce,
            Option::None => 0,
        }
    }

    /// Genesis provisioning: record a balance for an account, keeping
    /// its nonce. This is how initial allocations enter the ledger;
    /// execution never calls it.
    pub fn set_balance(&mut self, account: u64, amount: u64)
        ensures
            final(self)@ == old(self)@.insert(
                account,
                AccountState { balance: amount, nonce: spec_nonce(old(self)@, account) },
            ),
    {
        let nonce = self.get_nonce(account);
        self.accounts.insert(account, AccountState { balance: amount, nonce });
    }

    /// Check and apply one transfer: on success debit `from`, credit
    /// `to` and advance `from`'s nonce atomically; on any violation
    /// mutate nothing and report which check failed.
    pub fn apply_transfer(&mut self, from: u64, to: u64, value: u64, nonce: u64) -> (check:
        TransferCheck)
        ensures
            final(self)@ == spec_transfer(old(self)@, from, to, value, nonce).0,
            check == spec_transfer(old(self)@, from, to, value, nonce).1,
    {
        let current_nonce = self.get_nonce(from);
        if nonce != current_nonce {
            return TransferCheck::InvalidNonce;
        }
        let from_balance = self.get_balance(from);
        if from_balance < value {
            return TransferCheck::InsufficientBalance;
        }
        let to_balance = self.get_balance(to);
        if nonce == u64::MAX || (from != to && to_balance > u64::MAX - value) {
            return TransferCheck::Overflow;
        }
        if from == to {
            self.accounts.insert(from, AccountState { balance: from_balance, nonce: nonce + 1 });
        } else {
            let to_nonce = self.get_nonce(to);
            self.accounts.insert(
                from,
                AccountState { balance: from_balance - value, nonce: nonce + 1 },
            );
            self.accounts.insert(
                to,
                AccountState { balance: to_balance + value, nonce: to_nonce },
            );
        }
        TransferCheck::Applied
    }
}

} // verus!
