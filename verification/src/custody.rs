use vstd::prelude::*;
use crate::authority::is_curve_point;
use crate::calls::AccountInfo;
use crate::funds::funds_at;
use crate::instructions::{Cancel, Exchange, Initialize, TransferToken};
use crate::laws::{
    initialize_locks_funds, lemma_cancel_unfolds, lemma_exchange_unfolds,
    lemma_fee_transfer_unfolds,
};
use crate::processor::{cancel_outcome, exchange_outcome, fee_transfer_outcome, initialize_outcome};
use crate::pubkey::Pubkey;
use crate::state::{authority_of, Accounts};

verus! {

/// Whoever is counted as a signer holds a key: the address is a curve point.
pub open spec fn holds_key(info: AccountInfo) -> bool {
    info.is_signer ==> is_curve_point(info.key@)
}

/// Every token account held by `keeper`, but for those in `consumed`, is
/// still held by `keeper` and holds at least what it held.
pub open spec fn custody_kept(
    before: Accounts,
    after: Accounts,
    keeper: Pubkey,
    consumed: Set<Pubkey>,
) -> bool {
    forall|key: Pubkey|
        authority_of(before, key) == Some(keeper) && !consumed.contains(key) ==> authority_of(
            after,
            key,
        ) == Some(keeper) && funds_at(after, key) >= funds_at(before, key)
}

/// No instruction draws on what the program's keyless authority holds,
/// except that `exchange` and `cancel` consume the one vault they are
/// called on: as long as those on whose word funds move hold keys, which
/// the keyless authority does not, every other account under the keyless
/// authority keeps its authority and its funds.
pub proof fn keyless_custody_is_kept(
    accounts: Accounts,
    opening: Initialize,
    vault: Option<Pubkey>,
    initializer_amount: u64,
    taker_amount: u64,
    swap: Exchange,
    withdrawal: Cancel,
    payment: TransferToken,
    amount: u64,
    fee_amount: u64,
    keeper: Pubkey,
    bump: u8,
)
    ensures
        !is_curve_point(keeper@) && holds_key(opening.initializer) ==> match initialize_outcome(
            accounts,
            opening,
            vault,
            Some((keeper, bump)),
            initializer_amount,
            taker_amount,
        ) {
            Ok(after) => custody_kept(accounts, after, keeper, Set::empty()),
            Err(_) => true,
        },
        !is_curve_point(keeper@) && holds_key(swap.taker) ==> match exchange_outcome(
            accounts,
            swap,
            Some((keeper, bump)),
        ) {
            Ok(after) => custody_kept(accounts, after, keeper, set![swap.vault_account]),
            Err(_) => true,
        },
        match cancel_outcome(accounts, withdrawal, Some((keeper, bump))) {
            Ok(after) => custody_kept(accounts, after, keeper, set![withdrawal.vault_account]),
            Err(_) => true,
        },
        !is_curve_point(keeper@) && holds_key(payment.initializer) ==> match fee_transfer_outcome(
            accounts,
            payment,
            amount,
            fee_amount,
        ) {
            Ok(after) => custody_kept(accounts, after, keeper, Set::empty()),
            Err(_) => true,
        },
{
    initialize_locks_funds(
        accounts,
        opening,
        vault,
        Some((keeper, bump)),
        initializer_amount,
        taker_amount,
    );
    lemma_exchange_unfolds(accounts, swap, Some((keeper, bump)));
    lemma_cancel_unfolds(accounts, withdrawal, Some((keeper, bump)));
    lemma_fee_transfer_unfolds(accounts, payment, amount, fee_amount);
}

} // verus!
