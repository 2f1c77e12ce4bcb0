use vstd::prelude::*;
use crate::error::EscrowError;
use crate::instructions::{Cancel, Exchange, Initialize, TransferToken};
use crate::calls::TokenCall;
use crate::funds::lemma_records_stay;
use crate::ledger::{
    calls_outcome, close_account_outcome, lemma_three_calls, lemma_two_calls, transfer_outcome,
};
use crate::processor::{
    cancel_calls, cancel_checks, cancel_outcome, exchange_calls, exchange_checks, exchange_outcome,
    fee_transfer_calls, fee_transfer_outcome, initialize_calls, initialize_checks,
    initialize_outcome, new_record, opened,
};
use crate::pubkey::Pubkey;
use crate::state::{authority_of, escrow_of, token_of, Accounts, TokenAccount};

verus! {

/// The token account at `key` keeps its authority and its balance changes by `change`.
pub open spec fn balance_moves(
    before: Accounts,
    after: Accounts,
    key: Pubkey,
    change: int,
) -> bool {
    match (token_of(before, key), token_of(after, key)) {
        (Some(old_token), Some(new_token)) => new_token.authority == old_token.authority
            && new_token.amount == old_token.amount + change,
        _ => false,
    }
}

/// Outside the addresses in `touched`, the accounts are the same.
pub open spec fn same_elsewhere(before: Accounts, after: Accounts, touched: Set<Pubkey>) -> bool {
    forall|key: Pubkey|
        !touched.contains(key) ==> (before.dom().contains(key) <==> after.dom().contains(key)) && (
        before.dom().contains(key) ==> before[key] == after[key])
}

/// What holds of the accounts once `initialize` has succeeded.
pub open spec fn initialized(
    before: Accounts,
    call: Initialize,
    signer: Pubkey,
    initializer_amount: u64,
    taker_amount: u64,
    after: Accounts,
) -> bool {
    &&& token_of(after, call.vault_account) == Some(
        TokenAccount { authority: signer, amount: initializer_amount },
    )
    &&& escrow_of(after, call.escrow_account) == Some(
        new_record(call, initializer_amount, taker_amount),
    )
    &&& balance_moves(before, after, call.initializer_deposit_token_account, -initializer_amount)
    &&& same_elsewhere(
        before,
        after,
        set![call.vault_account, call.escrow_account, call.initializer_deposit_token_account],
    )
}

/// The inputs on which `initialize` succeeds.
pub open spec fn initialize_ready(
    accounts: Accounts,
    call: Initialize,
    vault: Option<Pubkey>,
    authority: Option<(Pubkey, u8)>,
    initializer_amount: u64,
) -> bool {
    &&& call.initializer.is_signer
    &&& vault == Some(call.vault_account)
    &&& initializer_amount > 0
    &&& token_of(accounts, call.initializer_receive_token_account) is Some
    &&& !accounts.dom().contains(call.vault_account)
    &&& !accounts.dom().contains(call.escrow_account)
    &&& call.vault_account != call.escrow_account
    &&& authority is Some
    &&& match token_of(accounts, call.initializer_deposit_token_account) {
        Some(deposit) => deposit.amount >= initializer_amount && deposit.authority
            == call.initializer.key,
        None => false,
    }
}

/// `initialize` succeeds exactly on the inputs that are ready for it, and
/// then the vault holds exactly the locked amount under the keyless
/// authority, the record holds exactly the terms given, the deposit account
/// has lost the locked amount, and nothing else has changed. The vault's
/// authority is then not the initializer, unless the initializer's own
/// address is the keyless authority.
pub proof fn initialize_locks_funds(
    accounts: Accounts,
    call: Initialize,
    vault: Option<Pubkey>,
    authority: Option<(Pubkey, u8)>,
    initializer_amount: u64,
    taker_amount: u64,
)
    ensures
        initialize_outcome(accounts, call, vault, authority, initializer_amount, taker_amount) is Ok
            <==> initialize_ready(accounts, call, vault, authority, initializer_amount),
        match (
            initialize_outcome(accounts, call, vault, authority, initializer_amount, taker_amount),
            authority,
        ) {
            (Ok(after), Some((signer, _))) => initialized(
                accounts,
                call,
                signer,
                initializer_amount,
                taker_amount,
                after,
            ) && (signer != call.initializer.key ==> authority_of(after, call.vault_account)
                != Some(call.initializer.key)),
            (Ok(_), None) => false,
            (Err(_), _) => true,
        },
{
    match initialize_checks(accounts, call, vault, authority, initializer_amount) {
        Ok((signer, _)) => {
            lemma_two_calls(
                opened(accounts, call, initializer_amount, taker_amount),
                TokenCall::SetAuthority(call.into_set_authority_context(), signer),
                TokenCall::Transfer(call.into_transfer_to_pda_context(), initializer_amount),
            );
        },
        Err(_) => {},
    }
}

/// The run of the three calls of `exchange`, call by call.
pub proof fn lemma_exchange_unfolds(
    accounts: Accounts,
    call: Exchange,
    authority: Option<(Pubkey, u8)>,
)
    ensures
        match exchange_checks(accounts, call, authority) {
            Ok((record, (signer, bump))) => calls_outcome(
                accounts,
                exchange_calls(call, record, signer, bump),
            ) == match transfer_outcome(
                accounts,
                call.into_transfer_to_initializer_context(),
                record.taker_amount,
            ) {
                Err(error) => Err(error),
                Ok(paid) => match transfer_outcome(
                    paid,
                    call.into_transfer_to_taker_context().with_signer(signer, bump),
                    record.initializer_amount,
                ) {
                    Err(error) => Err(error),
                    Ok(released) => close_account_outcome(
                        released,
                        call.into_close_context().with_signer(signer, bump),
                    ),
                },
            },
            Err(_) => true,
        },
{
    match exchange_checks(accounts, call, authority) {
        Ok((record, (signer, bump))) => {
            lemma_three_calls(
                accounts,
                TokenCall::Transfer(
                    call.into_transfer_to_initializer_context(),
                    record.taker_amount,
                ),
                TokenCall::Transfer(
                    call.into_transfer_to_taker_context().with_signer(signer, bump),
                    record.initializer_amount,
                ),
                TokenCall::CloseAccount(call.into_close_context().with_signer(signer, bump)),
            );
        },
        Err(_) => {},
    }
}

/// The run of the two calls of `cancel`, call by call.
pub proof fn lemma_cancel_unfolds(
    accounts: Accounts,
    call: Cancel,
    authority: Option<(Pubkey, u8)>,
)
    ensures
        match cancel_checks(accounts, call, authority) {
            Ok((record, (signer, bump))) => calls_outcome(
                accounts,
                cancel_calls(call, record, signer, bump),
            ) == match transfer_outcome(
                accounts,
                call.into_transfer_to_initializer_context().with_signer(signer, bump),
                record.initializer_amount,
            ) {
                Err(error) => Err(error),
                Ok(released) => close_account_outcome(
                    released,
                    call.into_close_context().with_signer(signer, bump),
                ),
            },
            Err(_) => true,
        },
{
    match cancel_checks(accounts, call, authority) {
        Ok((record, (signer, bump))) => {
            lemma_two_calls(
                accounts,
                TokenCall::Transfer(
                    call.into_transfer_to_initializer_context().with_signer(signer, bump),
                    record.initializer_amount,
                ),
                TokenCall::CloseAccount(call.into_close_context().with_signer(signer, bump)),
            );
        },
        Err(_) => {},
    }
}

/// The run of the two calls of a transfer with a fee, call by call.
pub proof fn lemma_fee_transfer_unfolds(
    accounts: Accounts,
    call: TransferToken,
    amount: u64,
    fee_amount: u64,
)
    ensures
        calls_outcome(accounts, fee_transfer_calls(call, amount, fee_amount))
            == match transfer_outcome(
            accounts,
            call.into_transfer_to_receiver(),
            (amount - fee_amount) as u64,
        ) {
            Err(error) => Err(error),
            Ok(paid) => transfer_outcome(paid, call.into_transfer_to_service(), fee_amount),
        },
{
    lemma_two_calls(
        accounts,
        TokenCall::Transfer(call.into_transfer_to_receiver(), (amount - fee_amount) as u64),
        TokenCall::Transfer(call.into_transfer_to_service(), fee_amount),
    );
}

/// The four token accounts between which `exchange` moves funds are four
/// different accounts.
pub open spec fn exchange_accounts_apart(call: Exchange) -> bool {
    &&& call.taker_deposit_token_account != call.taker_receive_token_account
    &&& call.taker_deposit_token_account != call.initializer_receive_token_account
    &&& call.taker_deposit_token_account != call.vault_account
    &&& call.taker_receive_token_account != call.initializer_receive_token_account
    &&& call.taker_receive_token_account != call.vault_account
    &&& call.initializer_receive_token_account != call.vault_account
}

/// The inputs on which `exchange` succeeds, where the accounts are apart.
pub open spec fn exchange_ready(
    accounts: Accounts,
    call: Exchange,
    authority: Option<(Pubkey, u8)>,
) -> bool {
    match (
        escrow_of(accounts, call.escrow_account),
        authority,
        token_of(accounts, call.taker_deposit_token_account),
        token_of(accounts, call.taker_receive_token_account),
        token_of(accounts, call.initializer_receive_token_account),
        token_of(accounts, call.vault_account),
    ) {
        (
            Some(record),
            Some((signer, _)),
            Some(deposit),
            Some(receive),
            Some(payee),
            Some(vault),
        ) => {
            &&& token_of(accounts, call.initializer_deposit_token_account) is Some
            &&& call.taker.is_signer
            &&& record.initializer_key == call.initializer.key
            &&& record.initializer_deposit_token_account == call.initializer_deposit_token_account
            &&& record.initializer_receive_token_account == call.initializer_receive_token_account
            &&& deposit.amount >= record.taker_amount
            &&& deposit.authority == call.taker.key
            &&& payee.amount + record.taker_amount <= u64::MAX
            &&& vault.amount == record.initializer_amount
            &&& vault.authority == call.vault_authority.key
            &&& (call.vault_authority.is_signer || call.vault_authority.key == signer)
            &&& receive.amount + record.initializer_amount <= u64::MAX
        },
        _ => false,
    }
}

/// What holds of the accounts once `exchange` has succeeded on accounts
/// that are apart.
pub open spec fn exchanged(before: Accounts, call: Exchange, after: Accounts) -> bool {
    match escrow_of(before, call.escrow_account) {
        Some(record) => {
            &&& balance_moves(
                before,
                after,
                call.initializer_receive_token_account,
                record.taker_amount as int,
            )
            &&& balance_moves(
                before,
                after,
                call.taker_receive_token_account,
                record.initializer_amount as int,
            )
            &&& balance_moves(before, after, call.taker_deposit_token_account, -record.taker_amount)
            &&& !after.dom().contains(call.vault_account)
            &&& !after.dom().contains(call.escrow_account)
            &&& same_elsewhere(
                before,
                after,
                set![
                    call.initializer_receive_token_account,
                    call.taker_receive_token_account,
                    call.taker_deposit_token_account,
                    call.vault_account,
                    call.escrow_account,
                ],
            )
        },
        None => false,
    }
}

/// Whenever `exchange` succeeds, the vault and the record no longer exist.
/// Where the four token accounts are apart, it succeeds exactly on the
/// inputs that are ready for it, and then the initializer's receive account
/// has gained exactly what the record asks, the taker's receive account has
/// gained exactly what was locked, the taker's deposit account has lost
/// exactly what the record asks, and nothing else has changed.
pub proof fn exchange_swaps_funds(
    accounts: Accounts,
    call: Exchange,
    authority: Option<(Pubkey, u8)>,
)
    ensures
        match exchange_outcome(accounts, call, authority) {
            Ok(after) => !after.dom().contains(call.vault_account) && !after.dom().contains(
                call.escrow_account,
            ),
            Err(_) => true,
        },
        exchange_accounts_apart(call) ==> (exchange_outcome(accounts, call, authority) is Ok
            <==> exchange_ready(accounts, call, authority)),
        exchange_accounts_apart(call) ==> match exchange_outcome(accounts, call, authority) {
            Ok(after) => exchanged(accounts, call, after),
            Err(_) => true,
        },
{
    lemma_exchange_unfolds(accounts, call, authority);
}

/// The inputs on which `cancel` succeeds, where the vault is not the
/// deposit account.
pub open spec fn cancel_ready(
    accounts: Accounts,
    call: Cancel,
    authority: Option<(Pubkey, u8)>,
) -> bool {
    match (
        escrow_of(accounts, call.escrow_account),
        authority,
        token_of(accounts, call.vault_account),
        token_of(accounts, call.initializer_deposit_token_account),
    ) {
        (Some(record), Some((signer, _)), Some(vault), Some(deposit)) => {
            &&& call.initializer.is_signer
            &&& record.initializer_key == call.initializer.key
            &&& record.initializer_deposit_token_account == call.initializer_deposit_token_account
            &&& vault.amount == record.initializer_amount
            &&& vault.authority == call.vault_authority.key
            &&& (call.vault_authority.is_signer || call.vault_authority.key == signer)
            &&& deposit.amount + record.initializer_amount <= u64::MAX
        },
        _ => false,
    }
}

/// What holds of the accounts once `cancel` has succeeded with a vault that
/// is not the deposit account.
pub open spec fn cancelled(before: Accounts, call: Cancel, after: Accounts) -> bool {
    match escrow_of(before, call.escrow_account) {
        Some(record) => {
            &&& balance_moves(
                before,
                after,
                call.initializer_deposit_token_account,
                record.initializer_amount as int,
            )
            &&& !after.dom().contains(call.vault_account)
            &&& !after.dom().contains(call.escrow_account)
            &&& same_elsewhere(
                before,
                after,
                set![
                    call.initializer_deposit_token_account,
                    call.vault_account,
                    call.escrow_account,
                ],
            )
        },
        None => false,
    }
}

/// Whenever `cancel` succeeds, the vault and the record no longer exist.
/// Where the vault is not the deposit account, it succeeds exactly on the
/// inputs that are ready for it, and then the deposit account has regained
/// exactly what was locked, and nothing else has changed.
pub proof fn cancel_returns_funds(
    accounts: Accounts,
    call: Cancel,
    authority: Option<(Pubkey, u8)>,
)
    ensures
        match cancel_outcome(accounts, call, authority) {
            Ok(after) => !after.dom().contains(call.vault_account) && !after.dom().contains(
                call.escrow_account,
            ),
            Err(_) => true,
        },
        call.vault_account != call.initializer_deposit_token_account ==> (cancel_outcome(
            accounts,
            call,
            authority,
        ) is Ok <==> cancel_ready(accounts, call, authority)),
        call.vault_account != call.initializer_deposit_token_account ==> match cancel_outcome(
            accounts,
            call,
            authority,
        ) {
            Ok(after) => cancelled(accounts, call, after),
            Err(_) => true,
        },
{
    lemma_cancel_unfolds(accounts, call, authority);
}

/// Once `exchange` has succeeded, every later `exchange` and every later
/// `cancel` on the same record fails for want of the record.
pub proof fn exchange_is_final(
    accounts: Accounts,
    call: Exchange,
    authority: Option<(Pubkey, u8)>,
    next_exchange: Exchange,
    next_cancel: Cancel,
    next_authority: Option<(Pubkey, u8)>,
)
    requires
        exchange_outcome(accounts, call, authority) is Ok,
        next_exchange.escrow_account == call.escrow_account,
        next_cancel.escrow_account == call.escrow_account,
    ensures
        exchange_outcome(
            exchange_outcome(accounts, call, authority)->Ok_0,
            next_exchange,
            next_authority,
        ) == Err::<Accounts, EscrowError>(EscrowError::RecordNotFound),
        cancel_outcome(
            exchange_outcome(accounts, call, authority)->Ok_0,
            next_cancel,
            next_authority,
        ) == Err::<Accounts, EscrowError>(EscrowError::RecordNotFound),
{
    exchange_swaps_funds(accounts, call, authority);
}

/// Once `cancel` has succeeded, every later `exchange` and every later
/// `cancel` on the same record fails for want of the record.
pub proof fn cancel_is_final(
    accounts: Accounts,
    call: Cancel,
    authority: Option<(Pubkey, u8)>,
    next_exchange: Exchange,
    next_cancel: Cancel,
    next_authority: Option<(Pubkey, u8)>,
)
    requires
        cancel_outcome(accounts, call, authority) is Ok,
        next_exchange.escrow_account == call.escrow_account,
        next_cancel.escrow_account == call.escrow_account,
    ensures
        exchange_outcome(
            cancel_outcome(accounts, call, authority)->Ok_0,
            next_exchange,
            next_authority,
        ) == Err::<Accounts, EscrowError>(EscrowError::RecordNotFound),
        cancel_outcome(
            cancel_outcome(accounts, call, authority)->Ok_0,
            next_cancel,
            next_authority,
        ) == Err::<Accounts, EscrowError>(EscrowError::RecordNotFound),
{
    cancel_returns_funds(accounts, call, authority);
}

/// The record exists and names another receive account than the call does.
pub open spec fn receive_account_differs(accounts: Accounts, call: Exchange) -> bool {
    match escrow_of(accounts, call.escrow_account) {
        Some(record) => record.initializer_receive_token_account
            != call.initializer_receive_token_account,
        None => false,
    }
}

/// The checks that `exchange` makes before it compares the accounts with
/// the record all pass: the record and the five token accounts exist, the
/// taker has signed and holds what the record asks.
pub open spec fn exchange_checks_reach_terms(accounts: Accounts, call: Exchange) -> bool {
    match (
        escrow_of(accounts, call.escrow_account),
        token_of(accounts, call.taker_deposit_token_account),
    ) {
        (Some(record), Some(deposit)) => {
            &&& deposit.amount >= record.taker_amount
            &&& token_of(accounts, call.taker_receive_token_account) is Some
            &&& token_of(accounts, call.initializer_deposit_token_account) is Some
            &&& token_of(accounts, call.initializer_receive_token_account) is Some
            &&& token_of(accounts, call.vault_account) is Some
            &&& call.taker.is_signer
        },
        _ => false,
    }
}

/// An `exchange` that names another receive account than the record does
/// fails. Where the checks before the comparison pass, it fails for the
/// mismatch.
pub proof fn exchange_rejects_other_receive_account(
    accounts: Accounts,
    call: Exchange,
    authority: Option<(Pubkey, u8)>,
)
    requires
        receive_account_differs(accounts, call),
    ensures
        exchange_outcome(accounts, call, authority) is Err,
        exchange_checks_reach_terms(accounts, call) ==> exchange_outcome(accounts, call, authority)
            == Err::<Accounts, EscrowError>(EscrowError::MismatchedTerms),
{
}

/// The three token accounts of a transfer with a fee are three different
/// accounts.
pub open spec fn fee_accounts_apart(call: TransferToken) -> bool {
    &&& call.sender_token_account != call.receiver_token_account
    &&& call.sender_token_account != call.service_token_account
    &&& call.receiver_token_account != call.service_token_account
}

/// The inputs on which a transfer with a fee succeeds, where the accounts
/// are apart.
pub open spec fn fee_transfer_ready(
    accounts: Accounts,
    call: TransferToken,
    amount: u64,
    fee_amount: u64,
) -> bool {
    match (
        token_of(accounts, call.sender_token_account),
        token_of(accounts, call.receiver_token_account),
        token_of(accounts, call.service_token_account),
    ) {
        (Some(sender), Some(receiver), Some(service)) => {
            &&& call.initializer.is_signer
            &&& sender.authority == call.initializer.key
            &&& sender.amount >= amount
            &&& fee_amount <= amount
            &&& receiver.amount + (amount - fee_amount) <= u64::MAX
            &&& service.amount + fee_amount <= u64::MAX
        },
        _ => false,
    }
}

/// What holds of the accounts once a transfer with a fee has succeeded on
/// accounts that are apart: the sender has paid the amount, the receiver has
/// the amount less the fee, the service account has the fee.
pub open spec fn fee_split(
    before: Accounts,
    call: TransferToken,
    amount: u64,
    fee_amount: u64,
    after: Accounts,
) -> bool {
    &&& fee_amount <= amount
    &&& balance_moves(before, after, call.sender_token_account, -amount)
    &&& balance_moves(before, after, call.receiver_token_account, amount - fee_amount)
    &&& balance_moves(before, after, call.service_token_account, fee_amount as int)
    &&& same_elsewhere(
        before,
        after,
        set![
            call.sender_token_account,
            call.receiver_token_account,
            call.service_token_account,
        ],
    )
}

/// Where the three token accounts are apart, a transfer with a fee succeeds
/// exactly on the inputs that are ready for it, and then it has taken
/// exactly the amount from the sender, given the receiver the amount less
/// the fee and the service account the fee, and changed nothing else: what
/// the two receive sums to what the sender pays.
pub proof fn fee_transfer_splits_amount(
    accounts: Accounts,
    call: TransferToken,
    amount: u64,
    fee_amount: u64,
)
    requires
        fee_accounts_apart(call),
    ensures
        fee_transfer_outcome(accounts, call, amount, fee_amount) is Ok <==> fee_transfer_ready(
            accounts,
            call,
            amount,
            fee_amount,
        ),
        match fee_transfer_outcome(accounts, call, amount, fee_amount) {
            Ok(after) => fee_split(accounts, call, amount, fee_amount, after),
            Err(_) => true,
        },
{
    lemma_fee_transfer_unfolds(accounts, call, amount, fee_amount);
}

/// Every address but `except` holds the same record, or none, before and after.
pub open spec fn records_kept(before: Accounts, after: Accounts, except: Set<Pubkey>) -> bool {
    forall|key: Pubkey| !except.contains(key) ==> escrow_of(before, key) == escrow_of(after, key)
}

/// No instruction alters the terms of a record. `initialize` writes one
/// record where there was none, `exchange` and `cancel` destroy the one
/// they are called on, and every other record stays as it is.
pub proof fn records_are_immutable(
    accounts: Accounts,
    opening: Initialize,
    vault: Option<Pubkey>,
    initializer_amount: u64,
    taker_amount: u64,
    swap: Exchange,
    withdrawal: Cancel,
    payment: TransferToken,
    amount: u64,
    fee_amount: u64,
    authority: Option<(Pubkey, u8)>,
)
    ensures
        match initialize_outcome(
            accounts,
            opening,
            vault,
            authority,
            initializer_amount,
            taker_amount,
        ) {
            Ok(after) => escrow_of(accounts, opening.escrow_account) is None && records_kept(
                accounts,
                after,
                set![opening.escrow_account],
            ),
            Err(_) => true,
        },
        match exchange_outcome(accounts, swap, authority) {
            Ok(after) => escrow_of(after, swap.escrow_account) is None && records_kept(
                accounts,
                after,
                set![swap.escrow_account],
            ),
            Err(_) => true,
        },
        match cancel_outcome(accounts, withdrawal, authority) {
            Ok(after) => escrow_of(after, withdrawal.escrow_account) is None && records_kept(
                accounts,
                after,
                set![withdrawal.escrow_account],
            ),
            Err(_) => true,
        },
        match fee_transfer_outcome(accounts, payment, amount, fee_amount) {
            Ok(after) => records_kept(accounts, after, Set::empty()),
            Err(_) => true,
        },
{
    match initialize_checks(accounts, opening, vault, authority, initializer_amount) {
        Ok((signer, _)) => {
            lemma_records_stay(
                opened(accounts, opening, initializer_amount, taker_amount),
                initialize_calls(opening, signer, initializer_amount),
            );
        },
        Err(_) => {},
    }
    match exchange_checks(accounts, swap, authority) {
        Ok((record, (signer, bump))) => {
            lemma_records_stay(accounts, exchange_calls(swap, record, signer, bump));
        },
        Err(_) => {},
    }
    match cancel_checks(accounts, withdrawal, authority) {
        Ok((record, (signer, bump))) => {
            lemma_records_stay(accounts, cancel_calls(withdrawal, record, signer, bump));
        },
        Err(_) => {},
    }
    lemma_records_stay(accounts, fee_transfer_calls(payment, amount, fee_amount));
}

} // verus!
