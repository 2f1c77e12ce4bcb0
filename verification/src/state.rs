use vstd::prelude::*;
use crate::error::EscrowError;
use crate::pubkey::Pubkey;

verus! {

/// The terms of one pending swap. Nothing changes a record between the
/// instruction that writes it and the one that destroys it.
#[derive(Clone, Copy, Debug, PartialEq, Eq)]
pub struct EscrowAccount {
    /// Who opened the escrow.
    pub initializer_key: Pubkey,
    /// The token account that the locked funds came from, and return to on cancel.
    pub initializer_deposit_token_account: Pubkey,
    /// The token account that the taker's payment must go to.
    pub initializer_receive_token_account: Pubkey,
    /// How much the initializer locked in the vault.
    pub initializer_amount: u64,
    /// How much the initializer asks in return.
    pub taker_amount: u64,
}

/// A token account as the ledger keeps it.
#[derive(Clone, Copy, Debug, PartialEq, Eq)]
pub struct TokenAccount {
    /// Who may move funds out of the account, change this field, or close the account.
    pub authority: Pubkey,
    /// The balance.
    pub amount: u64,
}

/// What an address holds.
#[derive(Clone, Copy, Debug, PartialEq, Eq)]
pub enum AccountData {
    Token(TokenAccount),
    Escrow(EscrowAccount),
}

/// The accounts by address: the mathematical state that every contract speaks of.
pub type Accounts = Map<Pubkey, AccountData>;

/// The token account at `key`, if there is one.
pub open spec fn token_of(accounts: Accounts, key: Pubkey) -> Option<TokenAccount> {
    if accounts.dom().contains(key) {
        match accounts[key] {
            AccountData::Token(token) => Some(token),
            AccountData::Escrow(_) => None,
        }
    } else {
        None
    }
}

/// The authority over the token account at `key`, if there is one.
pub open spec fn authority_of(accounts: Accounts, key: Pubkey) -> Option<Pubkey> {
    match token_of(accounts, key) {
        Some(token) => Some(token.authority),
        None => None,
    }
}

/// The escrow record at `key`, if there is one.
pub open spec fn escrow_of(accounts: Accounts, key: Pubkey) -> Option<EscrowAccount> {
    if accounts.dom().contains(key) {
        match accounts[key] {
            AccountData::Token(_) => None,
            AccountData::Escrow(record) => Some(record),
        }
    } else {
        None
    }
}

/// How a fallible step relates the accounts before and after it: on success
/// they become what the step computed, on failure they stay as they were and
/// the step's error is returned.
pub open spec fn settles<T>(
    before: Accounts,
    step: Result<Accounts, EscrowError>,
    result: Result<T, EscrowError>,
    after: Accounts,
) -> bool {
    match step {
        Ok(accounts) => result is Ok && after == accounts,
        Err(error) => result == Err::<T, EscrowError>(error) && after == before,
    }
}

} // verus!
