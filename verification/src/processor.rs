use vstd::prelude::*;
use crate::authority::{
    create_vault_address, find_vault_authority, is_curve_point, vault_address, vault_authority,
};
use crate::calls::TokenCall;
use crate::error::EscrowError;
use crate::funds::{
    cancel_conserves_funds, exchange_conserves_funds, fee_transfer_conserves_funds,
    initialize_conserves_funds, total_funds,
};
use crate::instructions::{Cancel, Exchange, Initialize, TransferToken};
use crate::laws::{
    cancel_ready, cancel_returns_funds, cancelled, exchange_accounts_apart,
    exchange_checks_reach_terms, exchange_ready, exchange_rejects_other_receive_account,
    exchange_swaps_funds, exchanged,
    fee_accounts_apart, fee_split, fee_transfer_ready, fee_transfer_splits_amount,
    initialize_locks_funds,
    initialize_ready, initialized, receive_account_differs,
};
use crate::ledger::{calls_outcome, Ledger};
use crate::pubkey::Pubkey;
use crate::state::{
    authority_of, escrow_of, settles, token_of, AccountData, Accounts, EscrowAccount, TokenAccount,
};

verus! {

/// The record that `initialize` writes.
pub open spec fn new_record(
    call: Initialize,
    initializer_amount: u64,
    taker_amount: u64,
) -> EscrowAccount {
    EscrowAccount {
        initializer_key: call.initializer.key,
        initializer_deposit_token_account: call.initializer_deposit_token_account,
        initializer_receive_token_account: call.initializer_receive_token_account,
        initializer_amount,
        taker_amount,
    }
}

/// What `initialize` finds before it changes anything: the keyless
/// authority that is to hold the vault, or why the instruction is refused.
///
/// It is refused, by the first of these that applies, as
/// - `Unauthorized`, unless the initializer has signed;
/// - `InvalidSeeds`, unless the vault account is the derived vault address;
/// - `InvalidAmount`, if nothing is to be locked;
/// - `AccountNotFound`, unless the deposit and the receive account are token accounts;
/// - `InsufficientFunds`, if the deposit account holds less than is to be locked;
/// - `AccountInUse`, unless the vault's and the record's address are two free addresses;
/// - `AuthorityDerivationFailure`, if the program has no keyless authority.
pub open spec fn initialize_checks(
    accounts: Accounts,
    call: Initialize,
    vault: Option<Pubkey>,
    authority: Option<(Pubkey, u8)>,
    initializer_amount: u64,
) -> Result<(Pubkey, u8), EscrowError> {
    if !call.initializer.is_signer {
        Err(EscrowError::Unauthorized)
    } else if vault != Some(call.vault_account) {
        Err(EscrowError::InvalidSeeds)
    } else if initializer_amount == 0 {
        Err(EscrowError::InvalidAmount)
    } else {
        match (
            token_of(accounts, call.initializer_deposit_token_account),
            token_of(accounts, call.initializer_receive_token_account),
        ) {
            (Some(deposit), Some(_)) => {
                if deposit.amount < initializer_amount {
                    Err(EscrowError::InsufficientFunds)
                } else if accounts.dom().contains(call.vault_account) || accounts.dom().contains(
                    call.escrow_account,
                ) || call.vault_account == call.escrow_account {
                    Err(EscrowError::AccountInUse)
                } else {
                    match authority {
                        None => Err(EscrowError::AuthorityDerivationFailure),
                        Some(keeper) => Ok(keeper),
                    }
                }
            },
            _ => Err(EscrowError::AccountNotFound),
        }
    }
}

/// The accounts once `initialize` has created the vault, empty and under
/// the initializer's authority, and has written the record.
pub open spec fn opened(
    accounts: Accounts,
    call: Initialize,
    initializer_amount: u64,
    taker_amount: u64,
) -> Accounts {
    accounts.insert(
        call.vault_account,
        AccountData::Token(TokenAccount { authority: call.initializer.key, amount: 0 }),
    ).insert(
        call.escrow_account,
        AccountData::Escrow(new_record(call, initializer_amount, taker_amount)),
    )
}

/// The calls that `initialize` makes: the vault is handed to the keyless
/// authority, then the funds are locked in it.
pub open spec fn initialize_calls(call: Initialize, signer: Pubkey, initializer_amount: u64) -> Seq<
    TokenCall,
> {
    seq![
        TokenCall::SetAuthority(call.into_set_authority_context(), signer),
        TokenCall::Transfer(call.into_transfer_to_pda_context(), initializer_amount),
    ]
}

/// What `initialize` does to the accounts, given the vault address that the
/// disambiguator derives and the keyless authority of the program: where
/// nothing is in the way, the vault is created and the record written, and
/// the calls are made; where the ledger refuses one of them, so does
/// `initialize`.
pub open spec fn initialize_outcome(
    accounts: Accounts,
    call: Initialize,
    vault: Option<Pubkey>,
    authority: Option<(Pubkey, u8)>,
    initializer_amount: u64,
    taker_amount: u64,
) -> Result<Accounts, EscrowError> {
    match initialize_checks(accounts, call, vault, authority, initializer_amount) {
        Err(error) => Err(error),
        Ok((signer, _)) => calls_outcome(
            opened(accounts, call, initializer_amount, taker_amount),
            initialize_calls(call, signer, initializer_amount),
        ),
    }
}

/// The calls that `initialize` makes on these accounts, where nothing is in
/// the way.
pub open spec fn initialize_plan(
    accounts: Accounts,
    call: Initialize,
    vault: Option<Pubkey>,
    authority: Option<(Pubkey, u8)>,
    initializer_amount: u64,
) -> Seq<TokenCall> {
    match initialize_checks(accounts, call, vault, authority, initializer_amount) {
        Err(_) => Seq::empty(),
        Ok((signer, _)) => initialize_calls(call, signer, initializer_amount),
    }
}

/// What `exchange` finds before it changes anything: the record and the
/// keyless authority that holds the vault, or why the instruction is
/// refused.
///
/// It is refused, by the first of these that applies, as
/// - `RecordNotFound`, unless there is a record at the escrow account;
/// - `AccountNotFound`, unless the two accounts of the taker, the two of the
///   initializer and the vault are token accounts;
/// - `Unauthorized`, unless the taker has signed;
/// - `InsufficientFunds`, if the taker's deposit account holds less than the record asks;
/// - `MismatchedTerms`, unless the initializer, the deposit account and the
///   receive account are those that the record names;
/// - `AuthorityDerivationFailure`, if the program has no keyless authority.
pub open spec fn exchange_checks(
    accounts: Accounts,
    call: Exchange,
    authority: Option<(Pubkey, u8)>,
) -> Result<(EscrowAccount, (Pubkey, u8)), EscrowError> {
    match escrow_of(accounts, call.escrow_account) {
        None => Err(EscrowError::RecordNotFound),
        Some(record) => {
            match token_of(accounts, call.taker_deposit_token_account) {
                Some(deposit) if token_of(accounts, call.taker_receive_token_account) is Some
                    && token_of(accounts, call.initializer_deposit_token_account) is Some
                    && token_of(accounts, call.initializer_receive_token_account) is Some
                    && token_of(accounts, call.vault_account) is Some => {
                    if !call.taker.is_signer {
                        Err(EscrowError::Unauthorized)
                    } else if deposit.amount < record.taker_amount {
                        Err(EscrowError::InsufficientFunds)
                    } else if record.initializer_deposit_token_account
                        != call.initializer_deposit_token_account
                        || record.initializer_receive_token_account
                        != call.initializer_receive_token_account || record.initializer_key
                        != call.initializer.key {
                        Err(EscrowError::MismatchedTerms)
                    } else {
                        match authority {
                            None => Err(EscrowError::AuthorityDerivationFailure),
                            Some(keeper) => Ok((record, keeper)),
                        }
                    }
                },
                _ => Err(EscrowError::AccountNotFound),
            }
        },
    }
}

/// The calls that `exchange` makes: the taker pays the initializer, the
/// vault pays the taker on the keyless authority's word, and the vault is
/// closed.
pub open spec fn exchange_calls(
    call: Exchange,
    record: EscrowAccount,
    signer: Pubkey,
    bump: u8,
) -> Seq<TokenCall> {
    seq![
        TokenCall::Transfer(call.into_transfer_to_initializer_context(), record.taker_amount),
        TokenCall::Transfer(
            call.into_transfer_to_taker_context().with_signer(signer, bump),
            record.initializer_amount,
        ),
        TokenCall::CloseAccount(call.into_close_context().with_signer(signer, bump)),
    ]
}

/// What `exchange` does to the accounts, given the keyless authority of the
/// program: where nothing is in the way, the calls are made and the record
/// is destroyed; where the ledger refuses one of the calls, so does
/// `exchange`.
pub open spec fn exchange_outcome(
    accounts: Accounts,
    call: Exchange,
    authority: Option<(Pubkey, u8)>,
) -> Result<Accounts, EscrowError> {
    match exchange_checks(accounts, call, authority) {
        Err(error) => Err(error),
        Ok((record, (signer, bump))) => match calls_outcome(
            accounts,
            exchange_calls(call, record, signer, bump),
        ) {
            Err(error) => Err(error),
            Ok(closed) => Ok(closed.remove(call.escrow_account)),
        },
    }
}

/// The calls that `exchange` makes on these accounts, where nothing is in
/// the way.
pub open spec fn exchange_plan(
    accounts: Accounts,
    call: Exchange,
    authority: Option<(Pubkey, u8)>,
) -> Seq<TokenCall> {
    match exchange_checks(accounts, call, authority) {
        Err(_) => Seq::empty(),
        Ok((record, (signer, bump))) => exchange_calls(call, record, signer, bump),
    }
}

/// What `cancel` finds before it changes anything: the record and the
/// keyless authority that holds the vault, or why the instruction is
/// refused.
///
/// It is refused, by the first of these that applies, as
/// - `RecordNotFound`, unless there is a record at the escrow account;
/// - `AccountNotFound`, unless the vault and the deposit account are token accounts;
/// - `Unauthorized`, unless the initializer has signed and is the one that
///   the record names, and the deposit account is the one that it names;
/// - `AuthorityDerivationFailure`, if the program has no keyless authority.
pub open spec fn cancel_checks(
    accounts: Accounts,
    call: Cancel,
    authority: Option<(Pubkey, u8)>,
) -> Result<(EscrowAccount, (Pubkey, u8)), EscrowError> {
    match escrow_of(accounts, call.escrow_account) {
        None => Err(EscrowError::RecordNotFound),
        Some(record) => {
            if token_of(accounts, call.vault_account) is None || token_of(
                accounts,
                call.initializer_deposit_token_account,
            ) is None {
                Err(EscrowError::AccountNotFound)
            } else if !call.initializer.is_signer || record.initializer_key != call.initializer.key
                || record.initializer_deposit_token_account
                != call.initializer_deposit_token_account {
                Err(EscrowError::Unauthorized)
            } else {
                match authority {
                    None => Err(EscrowError::AuthorityDerivationFailure),
                    Some(keeper) => Ok((record, keeper)),
                }
            }
        },
    }
}

/// The calls that `cancel` makes: the vault pays the locked funds back on
/// the keyless authority's word, and the vault is closed.
pub open spec fn cancel_calls(call: Cancel, record: EscrowAccount, signer: Pubkey, bump: u8) -> Seq<
    TokenCall,
> {
    seq![
        TokenCall::Transfer(
            call.into_transfer_to_initializer_context().with_signer(signer, bump),
            record.initializer_amount,
        ),
        TokenCall::CloseAccount(call.into_close_context().with_signer(signer, bump)),
    ]
}

/// What `cancel` does to the accounts, given the keyless authority of the
/// program: where nothing is in the way, the calls are made and the record
/// is destroyed; where the ledger refuses one of the calls, so does
/// `cancel`.
pub open spec fn cancel_outcome(
    accounts: Accounts,
    call: Cancel,
    authority: Option<(Pubkey, u8)>,
) -> Result<Accounts, EscrowError> {
    match cancel_checks(accounts, call, authority) {
        Err(error) => Err(error),
        Ok((record, (signer, bump))) => match calls_outcome(
            accounts,
            cancel_calls(call, record, signer, bump),
        ) {
            Err(error) => Err(error),
            Ok(closed) => Ok(closed.remove(call.escrow_account)),
        },
    }
}

/// The calls that `cancel` makes on these accounts, where nothing is in the
/// way.
pub open spec fn cancel_plan(
    accounts: Accounts,
    call: Cancel,
    authority: Option<(Pubkey, u8)>,
) -> Seq<TokenCall> {
    match cancel_checks(accounts, call, authority) {
        Err(_) => Seq::empty(),
        Ok((record, (signer, bump))) => cancel_calls(call, record, signer, bump),
    }
}

/// Why a transfer with a fee is refused before anything is changed, if it is.
///
/// It is refused, by the first of these that applies, as
/// - `AccountNotFound`, unless the sender, the receiver and the service
///   account are token accounts;
/// - `Unauthorized`, unless the initializer has signed;
/// - `InsufficientFunds`, if the sender account holds less than the amount;
/// - `InvalidAmount`, if the fee exceeds the amount.
pub open spec fn fee_transfer_checks(
    accounts: Accounts,
    call: TransferToken,
    amount: u64,
    fee_amount: u64,
) -> Result<(), EscrowError> {
    match token_of(accounts, call.sender_token_account) {
        Some(sender) if token_of(accounts, call.receiver_token_account) is Some && token_of(
            accounts,
            call.service_token_account,
        ) is Some => {
            if !call.initializer.is_signer {
                Err(EscrowError::Unauthorized)
            } else if sender.amount < amount {
                Err(EscrowError::InsufficientFunds)
            } else if fee_amount > amount {
                Err(EscrowError::InvalidAmount)
            } else {
                Ok(())
            }
        },
        _ => Err(EscrowError::AccountNotFound),
    }
}

/// The calls that a transfer with a fee makes: the receiver is paid the
/// amount less the fee, then the service account is paid the fee, both out
/// of the sender account.
pub open spec fn fee_transfer_calls(call: TransferToken, amount: u64, fee_amount: u64) -> Seq<
    TokenCall,
> {
    seq![
        TokenCall::Transfer(call.into_transfer_to_receiver(), (amount - fee_amount) as u64),
        TokenCall::Transfer(call.into_transfer_to_service(), fee_amount),
    ]
}

/// What a transfer of `amount` with the fee `fee_amount` does to the
/// accounts: where nothing is in the way, the calls are made; where the
/// ledger refuses one of the two, so does the transfer.
pub open spec fn fee_transfer_outcome(
    accounts: Accounts,
    call: TransferToken,
    amount: u64,
    fee_amount: u64,
) -> Result<Accounts, EscrowError> {
    match fee_transfer_checks(accounts, call, amount, fee_amount) {
        Err(error) => Err(error),
        Ok(_) => calls_outcome(accounts, fee_transfer_calls(call, amount, fee_amount)),
    }
}

/// The calls that a transfer with a fee makes on these accounts, where
/// nothing is in the way.
pub open spec fn fee_transfer_plan(
    accounts: Accounts,
    call: TransferToken,
    amount: u64,
    fee_amount: u64,
) -> Seq<TokenCall> {
    match fee_transfer_checks(accounts, call, amount, fee_amount) {
        Err(_) => Seq::empty(),
        Ok(_) => fee_transfer_calls(call, amount, fee_amount),
    }
}

/// Cancels the escrow at `accounts.escrow_account` with the given keyless
/// authority: everything `cancel` does once the authority is derived.
/// Returns the calls that it has made on the ledger.
pub fn cancel_with_authority(
    accounts: &Cancel,
    ledger: &mut Ledger,
    authority: Option<(Pubkey, u8)>,
) -> (result: Result<Vec<TokenCall>, EscrowError>)
    ensures
        settles(
            old(ledger)@,
            cancel_outcome(old(ledger)@, *accounts, authority),
            result,
            final(ledger)@,
        ),
        match result {
            Ok(calls) => calls@ == cancel_plan(old(ledger)@, *accounts, authority),
            Err(_) => true,
        },
        result is Ok ==> !final(ledger)@.dom().contains(accounts.vault_account),
        result is Ok ==> !final(ledger)@.dom().contains(accounts.escrow_account),
        accounts.vault_account != accounts.initializer_deposit_token_account ==> (result is Ok
            <==> cancel_ready(old(ledger)@, *accounts, authority)),
        accounts.vault_account != accounts.initializer_deposit_token_account && result is Ok
            ==> cancelled(old(ledger)@, *accounts, final(ledger)@),
        total_funds(final(ledger)@) == total_funds(old(ledger)@),
{
    proof {
        ledger.lemma_view_finite();
        cancel_conserves_funds(ledger@, *accounts, authority);
        cancel_returns_funds(ledger@, *accounts, authority);
    }
    let record = match ledger.escrow_account(&accounts.escrow_account) {
        Some(record) => record,
        None => { return Err(EscrowError::RecordNotFound); },
    };
    if ledger.token_account(&accounts.vault_account).is_none() || ledger.token_account(
        &accounts.initializer_deposit_token_account,
    ).is_none() {
        return Err(EscrowError::AccountNotFound);
    }
    if !accounts.initializer.is_signer || record.initializer_key != accounts.initializer.key
        || record.initializer_deposit_token_account
        != accounts.initializer_deposit_token_account {
        return Err(EscrowError::Unauthorized);
    }
    let (signer, bump) = match authority {
        Some(found) => found,
        None => { return Err(EscrowError::AuthorityDerivationFailure); },
    };
    let calls = vec![
        TokenCall::Transfer(
            accounts.into_transfer_to_initializer_context().with_signer(signer, bump),
            record.initializer_amount,
        ),
        TokenCall::CloseAccount(accounts.into_close_context().with_signer(signer, bump)),
    ];
    assert(calls@ =~= cancel_calls(*accounts, record, signer, bump));
    let mut staged = ledger.clone();
    staged.run(&calls)?;
    staged.remove_account(&accounts.escrow_account);
    *ledger = staged;
    Ok(calls)
}

/// Cancels the escrow at `accounts.escrow_account`: the initializer takes
/// the locked funds back, and the vault and the record cease to exist.
/// Returns the calls that it has made on the ledger.
pub fn cancel(program_id: &Pubkey, accounts: &Cancel, ledger: &mut Ledger) -> (result: Result<
    Vec<TokenCall>,
    EscrowError,
>)
    ensures
        settles(
            old(ledger)@,
            cancel_outcome(old(ledger)@, *accounts, vault_authority(*program_id)),
            result,
            final(ledger)@,
        ),
        match result {
            Ok(calls) => calls@ == cancel_plan(
                old(ledger)@,
                *accounts,
                vault_authority(*program_id),
            ),
            Err(_) => true,
        },
        result is Ok ==> !final(ledger)@.dom().contains(accounts.vault_account),
        result is Ok ==> !final(ledger)@.dom().contains(accounts.escrow_account),
        accounts.vault_account != accounts.initializer_deposit_token_account ==> (result is Ok
            <==> cancel_ready(old(ledger)@, *accounts, vault_authority(*program_id))),
        accounts.vault_account != accounts.initializer_deposit_token_account && result is Ok
            ==> cancelled(old(ledger)@, *accounts, final(ledger)@),
        total_funds(final(ledger)@) == total_funds(old(ledger)@),
{
    let authority = find_vault_authority(program_id);
    cancel_with_authority(accounts, ledger, authority)
}

/// Completes the swap at `accounts.escrow_account` with the given keyless
/// authority: everything `exchange` does once the authority is derived.
/// Returns the calls that it has made on the ledger.
pub fn exchange_with_authority(
    accounts: &Exchange,
    ledger: &mut Ledger,
    authority: Option<(Pubkey, u8)>,
) -> (result: Result<Vec<TokenCall>, EscrowError>)
    ensures
        settles(
            old(ledger)@,
            exchange_outcome(old(ledger)@, *accounts, authority),
            result,
            final(ledger)@,
        ),
        match result {
            Ok(calls) => calls@ == exchange_plan(old(ledger)@, *accounts, authority),
            Err(_) => true,
        },
        result is Ok ==> !final(ledger)@.dom().contains(accounts.vault_account),
        result is Ok ==> !final(ledger)@.dom().contains(accounts.escrow_account),
        exchange_accounts_apart(*accounts) ==> (result is Ok <==> exchange_ready(
            old(ledger)@,
            *accounts,
            authority,
        )),
        exchange_accounts_apart(*accounts) && result is Ok ==> exchanged(
            old(ledger)@,
            *accounts,
            final(ledger)@,
        ),
        receive_account_differs(old(ledger)@, *accounts) ==> result is Err,
        receive_account_differs(old(ledger)@, *accounts) && exchange_checks_reach_terms(
            old(ledger)@,
            *accounts,
        ) ==> result == Err::<Vec<TokenCall>, EscrowError>(EscrowError::MismatchedTerms),
        total_funds(final(ledger)@) == total_funds(old(ledger)@),
{
    proof {
        ledger.lemma_view_finite();
        exchange_conserves_funds(ledger@, *accounts, authority);
        exchange_swaps_funds(ledger@, *accounts, authority);
        if receive_account_differs(ledger@, *accounts) {
            exchange_rejects_other_receive_account(ledger@, *accounts, authority);
        }
    }
    let record = match ledger.escrow_account(&accounts.escrow_account) {
        Some(record) => record,
        None => { return Err(EscrowError::RecordNotFound); },
    };
    let deposit = match ledger.token_account(&accounts.taker_deposit_token_account) {
        Some(deposit) => deposit,
        None => { return Err(EscrowError::AccountNotFound); },
    };
    if ledger.token_account(&accounts.taker_receive_token_account).is_none()
        || ledger.token_account(&accounts.initializer_deposit_token_account).is_none()
        || ledger.token_account(&accounts.initializer_receive_token_account).is_none()
        || ledger.token_account(&accounts.vault_account).is_none() {
        return Err(EscrowError::AccountNotFound);
    }
    if !accounts.taker.is_signer {
        return Err(EscrowError::Unauthorized);
    }
    if deposit.amount < record.taker_amount {
        return Err(EscrowError::InsufficientFunds);
    }
    if record.initializer_deposit_token_account != accounts.initializer_deposit_token_account
        || record.initializer_receive_token_account != accounts.initializer_receive_token_account
        || record.initializer_key != accounts.initializer.key {
        return Err(EscrowError::MismatchedTerms);
    }
    let (signer, bump) = match authority {
        Some(found) => found,
        None => { return Err(EscrowError::AuthorityDerivationFailure); },
    };
    let calls = vec![
        TokenCall::Transfer(accounts.into_transfer_to_initializer_context(), record.taker_amount),
        TokenCall::Transfer(
            accounts.into_transfer_to_taker_context().with_signer(signer, bump),
            record.initializer_amount,
        ),
        TokenCall::CloseAccount(accounts.into_close_context().with_signer(signer, bump)),
    ];
    assert(calls@ =~= exchange_calls(*accounts, record, signer, bump));
    let mut staged = ledger.clone();
    staged.run(&calls)?;
    staged.remove_account(&accounts.escrow_account);
    *ledger = staged;
    Ok(calls)
}

/// Completes the swap at `accounts.escrow_account`: the taker pays the
/// initializer what the record asks, receives the locked funds, and the
/// vault and the record cease to exist. Returns the calls that it has made
/// on the ledger.
pub fn exchange(program_id: &Pubkey, accounts: &Exchange, ledger: &mut Ledger) -> (result: Result<
    Vec<TokenCall>,
    EscrowError,
>)
    ensures
        settles(
            old(ledger)@,
            exchange_outcome(old(ledger)@, *accounts, vault_authority(*program_id)),
            result,
            final(ledger)@,
        ),
        match result {
            Ok(calls) => calls@ == exchange_plan(
                old(ledger)@,
                *accounts,
                vault_authority(*program_id),
            ),
            Err(_) => true,
        },
        result is Ok ==> !final(ledger)@.dom().contains(accounts.vault_account),
        result is Ok ==> !final(ledger)@.dom().contains(accounts.escrow_account),
        exchange_accounts_apart(*accounts) ==> (result is Ok <==> exchange_ready(
            old(ledger)@,
            *accounts,
            vault_authority(*program_id),
        )),
        exchange_accounts_apart(*accounts) && result is Ok ==> exchanged(
            old(ledger)@,
            *accounts,
            final(ledger)@,
        ),
        receive_account_differs(old(ledger)@, *accounts) ==> result is Err,
        receive_account_differs(old(ledger)@, *accounts) && exchange_checks_reach_terms(
            old(ledger)@,
            *accounts,
        ) ==> result == Err::<Vec<TokenCall>, EscrowError>(EscrowError::MismatchedTerms),
        total_funds(final(ledger)@) == total_funds(old(ledger)@),
{
    let authority = find_vault_authority(program_id);
    exchange_with_authority(accounts, ledger, authority)
}

/// Opens an escrow with the given derived vault address and keyless
/// authority: everything `initialize` does once both are derived. Returns
/// the calls that it has made on the ledger.
pub fn initialize_with_addresses(
    accounts: &Initialize,
    ledger: &mut Ledger,
    vault: Option<Pubkey>,
    authority: Option<(Pubkey, u8)>,
    initializer_amount: u64,
    taker_amount: u64,
) -> (result: Result<Vec<TokenCall>, EscrowError>)
    ensures
        settles(
            old(ledger)@,
            initialize_outcome(
                old(ledger)@,
                *accounts,
                vault,
                authority,
                initializer_amount,
                taker_amount,
            ),
            result,
            final(ledger)@,
        ),
        match result {
            Ok(calls) => calls@ == initialize_plan(
                old(ledger)@,
                *accounts,
                vault,
                authority,
                initializer_amount,
            ),
            Err(_) => true,
        },
        result is Ok <==> initialize_ready(
            old(ledger)@,
            *accounts,
            vault,
            authority,
            initializer_amount,
        ),
        match (result, authority) {
            (Ok(_), Some((signer, _))) => initialized(
                old(ledger)@,
                *accounts,
                signer,
                initializer_amount,
                taker_amount,
                final(ledger)@,
            ) && (signer != accounts.initializer.key ==> authority_of(
                final(ledger)@,
                accounts.vault_account,
            ) != Some(accounts.initializer.key)),
            (Ok(_), None) => false,
            (Err(_), _) => true,
        },
        total_funds(final(ledger)@) == total_funds(old(ledger)@),
{
    proof {
        ledger.lemma_view_finite();
        initialize_conserves_funds(
            ledger@,
            *accounts,
            vault,
            authority,
            initializer_amount,
            taker_amount,
        );
        initialize_locks_funds(
            ledger@,
            *accounts,
            vault,
            authority,
            initializer_amount,
            taker_amount,
        );
    }
    if !accounts.initializer.is_signer {
        return Err(EscrowError::Unauthorized);
    }
    match vault {
        Some(address) => {
            if address != accounts.vault_account {
                return Err(EscrowError::InvalidSeeds);
            }
        },
        None => { return Err(EscrowError::InvalidSeeds); },
    }
    if initializer_amount == 0 {
        return Err(EscrowError::InvalidAmount);
    }
    let deposit = match ledger.token_account(&accounts.initializer_deposit_token_account) {
        Some(deposit) => deposit,
        None => { return Err(EscrowError::AccountNotFound); },
    };
    if ledger.token_account(&accounts.initializer_receive_token_account).is_none() {
        return Err(EscrowError::AccountNotFound);
    }
    if deposit.amount < initializer_amount {
        return Err(EscrowError::InsufficientFunds);
    }
    if ledger.contains(&accounts.vault_account) || ledger.contains(&accounts.escrow_account)
        || accounts.vault_account == accounts.escrow_account {
        return Err(EscrowError::AccountInUse);
    }
    let (signer, _bump) = match authority {
        Some(found) => found,
        None => { return Err(EscrowError::AuthorityDerivationFailure); },
    };
    let calls = vec![
        TokenCall::SetAuthority(accounts.into_set_authority_context(), signer),
        TokenCall::Transfer(accounts.into_transfer_to_pda_context(), initializer_amount),
    ];
    assert(calls@ =~= initialize_calls(*accounts, signer, initializer_amount));
    let mut staged = ledger.clone();
    match staged.create_account(
        accounts.vault_account,
        AccountData::Token(TokenAccount { authority: accounts.initializer.key, amount: 0 }),
    ) {
        Ok(()) => {},
        Err(error) => { return Err(error); },
    }
    match staged.create_account(
        accounts.escrow_account,
        AccountData::Escrow(
            EscrowAccount {
                initializer_key: accounts.initializer.key,
                initializer_deposit_token_account: accounts.initializer_deposit_token_account,
                initializer_receive_token_account: accounts.initializer_receive_token_account,
                initializer_amount,
                taker_amount,
            },
        ),
    ) {
        Ok(()) => {},
        Err(error) => { return Err(error); },
    }
    staged.run(&calls)?;
    *ledger = staged;
    Ok(calls)
}

/// Opens an escrow: writes the record at `accounts.escrow_account`, creates
/// the vault at `accounts.vault_account`, hands it to the program's keyless
/// authority and locks `initializer_amount` in it. Returns the calls that
/// it has made on the ledger.
pub fn initialize(
    program_id: &Pubkey,
    accounts: &Initialize,
    ledger: &mut Ledger,
    vault_account_bump: u8,
    initializer_amount: u64,
    taker_amount: u64,
) -> (result: Result<Vec<TokenCall>, EscrowError>)
    ensures
        settles(
            old(ledger)@,
            initialize_outcome(
                old(ledger)@,
                *accounts,
                vault_address(*program_id, vault_account_bump),
                vault_authority(*program_id),
                initializer_amount,
                taker_amount,
            ),
            result,
            final(ledger)@,
        ),
        match result {
            Ok(calls) => calls@ == initialize_plan(
                old(ledger)@,
                *accounts,
                vault_address(*program_id, vault_account_bump),
                vault_authority(*program_id),
                initializer_amount,
            ),
            Err(_) => true,
        },
        result is Ok <==> initialize_ready(
            old(ledger)@,
            *accounts,
            vault_address(*program_id, vault_account_bump),
            vault_authority(*program_id),
            initializer_amount,
        ),
        match (result, vault_authority(*program_id)) {
            (Ok(_), Some((signer, _))) => initialized(
                old(ledger)@,
                *accounts,
                signer,
                initializer_amount,
                taker_amount,
                final(ledger)@,
            ),
            (Ok(_), None) => false,
            (Err(_), _) => true,
        },
        result is Ok && is_curve_point(accounts.initializer.key@) ==> authority_of(
            final(ledger)@,
            accounts.vault_account,
        ) != Some(accounts.initializer.key),
        total_funds(final(ledger)@) == total_funds(old(ledger)@),
{
    let vault = create_vault_address(program_id, vault_account_bump);
    let authority = find_vault_authority(program_id);
    initialize_with_addresses(accounts, ledger, vault, authority, initializer_amount, taker_amount)
}

/// Pays `amount` out of the sender account: `fee_amount` of it to the
/// service account, the rest to the receiver. Returns the calls that it has
/// made on the ledger.
pub fn transfer(
    accounts: &TransferToken,
    ledger: &mut Ledger,
    amount: u64,
    fee_amount: u64,
) -> (result: Result<Vec<TokenCall>, EscrowError>)
    ensures
        settles(
            old(ledger)@,
            fee_transfer_outcome(old(ledger)@, *accounts, amount, fee_amount),
            result,
            final(ledger)@,
        ),
        match result {
            Ok(calls) => calls@ == fee_transfer_plan(old(ledger)@, *accounts, amount, fee_amount),
            Err(_) => true,
        },
        fee_accounts_apart(*accounts) ==> (result is Ok <==> fee_transfer_ready(
            old(ledger)@,
            *accounts,
            amount,
            fee_amount,
        )),
        fee_accounts_apart(*accounts) && result is Ok ==> fee_split(
            old(ledger)@,
            *accounts,
            amount,
            fee_amount,
            final(ledger)@,
        ),
        total_funds(final(ledger)@) == total_funds(old(ledger)@),
{
    proof {
        ledger.lemma_view_finite();
        fee_transfer_conserves_funds(ledger@, *accounts, amount, fee_amount);
        if fee_accounts_apart(*accounts) {
            fee_transfer_splits_amount(ledger@, *accounts, amount, fee_amount);
        }
    }
    let sender = match ledger.token_account(&accounts.sender_token_account) {
        Some(sender) => sender,
        None => { return Err(EscrowError::AccountNotFound); },
    };
    if ledger.token_account(&accounts.receiver_token_account).is_none() || ledger.token_account(
        &accounts.service_token_account,
    ).is_none() {
        return Err(EscrowError::AccountNotFound);
    }
    if !accounts.initializer.is_signer {
        return Err(EscrowError::Unauthorized);
    }
    if sender.amount < amount {
        return Err(EscrowError::InsufficientFunds);
    }
    if fee_amount > amount {
        return Err(EscrowError::InvalidAmount);
    }
    let net_amount: u64 = amount - fee_amount;
    let calls = vec![
        TokenCall::Transfer(accounts.into_transfer_to_receiver(), net_amount),
        TokenCall::Transfer(accounts.into_transfer_to_service(), fee_amount),
    ];
    assert(calls@ =~= fee_transfer_calls(*accounts, amount, fee_amount));
    let mut staged = ledger.clone();
    staged.run(&calls)?;
    *ledger = staged;
    Ok(calls)
}

} // verus!
