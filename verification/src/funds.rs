use vstd::prelude::*;
use crate::calls::{CloseAccount, CpiContext, SetAuthority, TokenCall, Transfer};
use crate::instructions::{Cancel, Exchange, Initialize, TransferToken};
use crate::ledger::{
    call_outcome, calls_outcome, close_account_outcome, set_authority_outcome, transfer_outcome,
};
use crate::processor::{
    cancel_calls, cancel_checks, cancel_outcome, exchange_calls, exchange_checks, exchange_outcome,
    fee_transfer_calls, fee_transfer_outcome, initialize_calls, initialize_checks,
    initialize_outcome, new_record, opened,
};
use crate::pubkey::Pubkey;
use crate::state::{escrow_of, token_of, AccountData, Accounts, TokenAccount};

verus! {

/// The funds that `data` holds: the balance of a token account, nothing for a record.
pub open spec fn funds_in(data: AccountData) -> nat {
    match data {
        AccountData::Token(token) => token.amount as nat,
        AccountData::Escrow(_) => 0,
    }
}

/// The funds at the address `key`: nothing where there is no token account.
pub open spec fn funds_at(accounts: Accounts, key: Pubkey) -> nat {
    if accounts.dom().contains(key) {
        funds_in(accounts[key])
    } else {
        0
    }
}

/// The funds in all the accounts together.
pub open spec fn total_funds(accounts: Accounts) -> nat
    decreases accounts.dom().len(),
    when accounts.dom().finite()
{
    if accounts.dom().len() == 0 {
        0
    } else {
        let key = accounts.dom().choose();
        funds_at(accounts, key) + total_funds(accounts.remove(key))
    }
}

/// The total is the funds at any one address plus the total of the rest.
pub proof fn lemma_total_splits(accounts: Accounts, key: Pubkey)
    requires
        accounts.dom().finite(),
    ensures
        total_funds(accounts) == funds_at(accounts, key) + total_funds(accounts.remove(key)),
    decreases accounts.dom().len(),
{
    if !accounts.dom().contains(key) {
        assert(accounts.remove(key) =~= accounts);
    } else {
        assert(accounts.dom().len() != 0);
        let chosen = accounts.dom().choose();
        if chosen != key {
            lemma_total_splits(accounts.remove(chosen), key);
            lemma_total_splits(accounts.remove(key), chosen);
            assert(accounts.remove(chosen).remove(key) =~= accounts.remove(key).remove(chosen));
        }
    }
}

/// Putting `data` at an address changes the total by what the address gains.
pub proof fn lemma_total_after_insert(accounts: Accounts, key: Pubkey, data: AccountData)
    requires
        accounts.dom().finite(),
    ensures
        total_funds(accounts.insert(key, data)) + funds_at(accounts, key) == total_funds(accounts)
            + funds_in(data),
{
    lemma_total_splits(accounts.insert(key, data), key);
    lemma_total_splits(accounts, key);
    assert(accounts.insert(key, data).remove(key) =~= accounts.remove(key));
}

/// A transfer leaves the total of the funds as it was.
pub proof fn transfer_conserves_funds(
    accounts: Accounts,
    context: CpiContext<Transfer>,
    amount: u64,
)
    requires
        accounts.dom().finite(),
    ensures
        match transfer_outcome(accounts, context, amount) {
            Ok(after) => after.dom().finite() && total_funds(after) == total_funds(accounts),
            Err(_) => true,
        },
{
    let call = context.accounts;
    match (
        transfer_outcome(accounts, context, amount),
        token_of(accounts, call.from),
        token_of(accounts, call.to),
    ) {
        (Ok(_), Some(source), Some(target)) => {
            if call.from != call.to {
                let debited = AccountData::Token(
                    TokenAccount {
                        authority: source.authority,
                        amount: (source.amount - amount) as u64,
                    },
                );
                let credited = AccountData::Token(
                    TokenAccount {
                        authority: target.authority,
                        amount: (target.amount + amount) as u64,
                    },
                );
                lemma_total_after_insert(accounts, call.from, debited);
                lemma_total_after_insert(accounts.insert(call.from, debited), call.to, credited);
            }
        },
        _ => {},
    }
}

/// A change of authority leaves the total of the funds as it was.
pub proof fn set_authority_conserves_funds(
    accounts: Accounts,
    context: CpiContext<SetAuthority>,
    new_authority: Pubkey,
)
    requires
        accounts.dom().finite(),
    ensures
        match set_authority_outcome(accounts, context, new_authority) {
            Ok(after) => after.dom().finite() && total_funds(after) == total_funds(accounts),
            Err(_) => true,
        },
{
    let call = context.accounts;
    match (
        set_authority_outcome(accounts, context, new_authority),
        token_of(accounts, call.account_or_mint),
    ) {
        (Ok(_), Some(token)) => {
            lemma_total_after_insert(
                accounts,
                call.account_or_mint,
                AccountData::Token(TokenAccount { authority: new_authority, amount: token.amount }),
            );
        },
        _ => {},
    }
}

/// The closing of an account leaves the total of the funds as it was: only
/// an empty account can be closed.
pub proof fn close_account_conserves_funds(
    accounts: Accounts,
    context: CpiContext<CloseAccount>,
)
    requires
        accounts.dom().finite(),
    ensures
        match close_account_outcome(accounts, context) {
            Ok(after) => after.dom().finite() && total_funds(after) == total_funds(accounts),
            Err(_) => true,
        },
{
    lemma_total_splits(accounts, context.accounts.account);
}

/// A run of calls makes, destroys and alters no record.
pub proof fn lemma_records_stay(accounts: Accounts, calls: Seq<TokenCall>)
    ensures
        match calls_outcome(accounts, calls) {
            Ok(after) => forall|key: Pubkey| escrow_of(after, key) == escrow_of(accounts, key),
            Err(_) => true,
        },
    decreases calls.len(),
{
    if calls.len() > 0 {
        match call_outcome(accounts, calls.first()) {
            Ok(next) => {
                lemma_records_stay(next, calls.drop_first());
            },
            Err(_) => {},
        }
    }
}

/// A run of calls leaves the total of the funds as it was.
pub proof fn calls_conserve_funds(accounts: Accounts, calls: Seq<TokenCall>)
    requires
        accounts.dom().finite(),
    ensures
        match calls_outcome(accounts, calls) {
            Ok(after) => after.dom().finite() && total_funds(after) == total_funds(accounts),
            Err(_) => true,
        },
    decreases calls.len(),
{
    if calls.len() > 0 {
        match calls.first() {
            TokenCall::Transfer(context, amount) => {
                transfer_conserves_funds(accounts, context, amount);
            },
            TokenCall::SetAuthority(context, new_authority) => {
                set_authority_conserves_funds(accounts, context, new_authority);
            },
            TokenCall::CloseAccount(context) => {
                close_account_conserves_funds(accounts, context);
            },
        }
        match call_outcome(accounts, calls.first()) {
            Ok(next) => {
                calls_conserve_funds(next, calls.drop_first());
            },
            Err(_) => {},
        }
    }
}

/// `initialize` makes and loses no funds.
pub proof fn initialize_conserves_funds(
    accounts: Accounts,
    call: Initialize,
    vault: Option<Pubkey>,
    authority: Option<(Pubkey, u8)>,
    initializer_amount: u64,
    taker_amount: u64,
)
    requires
        accounts.dom().finite(),
    ensures
        match initialize_outcome(
            accounts,
            call,
            vault,
            authority,
            initializer_amount,
            taker_amount,
        ) {
            Ok(after) => after.dom().finite() && total_funds(after) == total_funds(accounts),
            Err(_) => true,
        },
{
    match initialize_checks(accounts, call, vault, authority, initializer_amount) {
        Ok((signer, _)) => {
            let empty_vault = AccountData::Token(
                TokenAccount { authority: call.initializer.key, amount: 0 },
            );
            let record = AccountData::Escrow(new_record(call, initializer_amount, taker_amount));
            lemma_total_after_insert(accounts, call.vault_account, empty_vault);
            lemma_total_after_insert(
                accounts.insert(call.vault_account, empty_vault),
                call.escrow_account,
                record,
            );
            calls_conserve_funds(
                opened(accounts, call, initializer_amount, taker_amount),
                initialize_calls(call, signer, initializer_amount),
            );
        },
        Err(_) => {},
    }
}

/// `exchange` makes and loses no funds.
pub proof fn exchange_conserves_funds(
    accounts: Accounts,
    call: Exchange,
    authority: Option<(Pubkey, u8)>,
)
    requires
        accounts.dom().finite(),
    ensures
        match exchange_outcome(accounts, call, authority) {
            Ok(after) => after.dom().finite() && total_funds(after) == total_funds(accounts),
            Err(_) => true,
        },
{
    match exchange_checks(accounts, call, authority) {
        Ok((record, (signer, bump))) => {
            let calls = exchange_calls(call, record, signer, bump);
            calls_conserve_funds(accounts, calls);
            match calls_outcome(accounts, calls) {
                Ok(closed) => {
                    lemma_records_stay(accounts, calls);
                    lemma_total_splits(closed, call.escrow_account);
                },
                Err(_) => {},
            }
        },
        Err(_) => {},
    }
}

/// `cancel` makes and loses no funds.
pub proof fn cancel_conserves_funds(
    accounts: Accounts,
    call: Cancel,
    authority: Option<(Pubkey, u8)>,
)
    requires
        accounts.dom().finite(),
    ensures
        match cancel_outcome(accounts, call, authority) {
            Ok(after) => after.dom().finite() && total_funds(after) == total_funds(accounts),
            Err(_) => true,
        },
{
    match cancel_checks(accounts, call, authority) {
        Ok((record, (signer, bump))) => {
            let calls = cancel_calls(call, record, signer, bump);
            calls_conserve_funds(accounts, calls);
            match calls_outcome(accounts, calls) {
                Ok(closed) => {
                    lemma_records_stay(accounts, calls);
                    lemma_total_splits(closed, call.escrow_account);
                },
                Err(_) => {},
            }
        },
        Err(_) => {},
    }
}

/// A transfer with a fee makes and loses no funds.
pub proof fn fee_transfer_conserves_funds(
    accounts: Accounts,
    call: TransferToken,
    amount: u64,
    fee_amount: u64,
)
    requires
        accounts.dom().finite(),
    ensures
        match fee_transfer_outcome(accounts, call, amount, fee_amount) {
            Ok(after) => after.dom().finite() && total_funds(after) == total_funds(accounts),
            Err(_) => true,
        },
{
    calls_conserve_funds(accounts, fee_transfer_calls(call, amount, fee_amount));
}

} // verus!
