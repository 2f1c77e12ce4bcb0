use anchor_escrow::authority::{create_vault_address, find_vault_authority};
use anchor_escrow::calls::AccountInfo;
use anchor_escrow::error::EscrowError;
use anchor_escrow::instructions::{Cancel, Exchange, Initialize};
use anchor_escrow::ledger::Ledger;
use anchor_escrow::processor::{
    cancel, cancel_with_authority, exchange, exchange_with_authority, initialize,
    initialize_with_addresses,
};
use anchor_escrow::pubkey::Pubkey;
use anchor_escrow::state::{AccountData, EscrowAccount, TokenAccount};

fn key(byte: u8) -> Pubkey {
    Pubkey::new_from_array([byte; 32])
}

fn signer(byte: u8) -> AccountInfo {
    AccountInfo { key: key(byte), is_signer: true }
}

fn unsigned(address: Pubkey) -> AccountInfo {
    AccountInfo { key: address, is_signer: false }
}

fn token(authority: Pubkey, amount: u64) -> AccountData {
    AccountData::Token(TokenAccount { authority, amount })
}

fn balance(ledger: &Ledger, address: &Pubkey) -> u64 {
    ledger.token_account(address).expect("a token account").amount
}

const PROGRAM: u8 = 7;
const ALICE: u8 = 1;
const BOB: u8 = 2;
const ALICE_X: u8 = 11;
const ALICE_Y: u8 = 12;
const BOB_X: u8 = 21;
const BOB_Y: u8 = 22;
const ESCROW: u8 = 31;

/// The vault address of the program and the disambiguator that gives it.
fn vault() -> (Pubkey, u8) {
    let mut bump: u8 = 255;
    loop {
        if let Some(address) = create_vault_address(&key(PROGRAM), bump) {
            return (address, bump);
        }
        bump -= 1;
    }
}

fn pda() -> Pubkey {
    find_vault_authority(&key(PROGRAM)).expect("a keyless authority").0
}

fn pda_bump() -> u8 {
    find_vault_authority(&key(PROGRAM)).expect("a keyless authority").1
}

/// Alice holds 500 X and 0 Y, Bob holds 0 X and 1000 Y.
fn world() -> Ledger {
    let mut ledger = Ledger::new();
    ledger.create_account(key(ALICE_X), token(key(ALICE), 500)).unwrap();
    ledger.create_account(key(ALICE_Y), token(key(ALICE), 0)).unwrap();
    ledger.create_account(key(BOB_X), token(key(BOB), 0)).unwrap();
    ledger.create_account(key(BOB_Y), token(key(BOB), 1000)).unwrap();
    ledger
}

fn initialize_accounts() -> Initialize {
    Initialize {
        initializer: signer(ALICE),
        vault_account: vault().0,
        initializer_deposit_token_account: key(ALICE_X),
        initializer_receive_token_account: key(ALICE_Y),
        escrow_account: key(ESCROW),
    }
}

fn exchange_accounts() -> Exchange {
    Exchange {
        taker: signer(BOB),
        taker_deposit_token_account: key(BOB_Y),
        taker_receive_token_account: key(BOB_X),
        initializer_deposit_token_account: key(ALICE_X),
        initializer_receive_token_account: key(ALICE_Y),
        initializer: unsigned(key(ALICE)),
        escrow_account: key(ESCROW),
        vault_account: vault().0,
        vault_authority: unsigned(pda()),
    }
}

fn cancel_accounts() -> Cancel {
    Cancel {
        initializer: signer(ALICE),
        vault_account: vault().0,
        vault_authority: unsigned(pda()),
        initializer_deposit_token_account: key(ALICE_X),
        escrow_account: key(ESCROW),
    }
}

/// The world after Alice has locked 100 X, asking 200 Y.
fn open_world() -> Ledger {
    let mut ledger = world();
    initialize(&key(PROGRAM), &initialize_accounts(), &mut ledger, vault().1, 100, 200).unwrap();
    ledger
}

fn snapshot(ledger: &Ledger) -> Vec<Option<AccountData>> {
    let mut addresses = vec![key(ALICE_X), key(ALICE_Y), key(BOB_X), key(BOB_Y), key(ESCROW)];
    addresses.push(vault().0);
    addresses.iter().map(|address| ledger.get(address)).collect()
}

#[test]
fn initialize_creates_vault_and_record() {
    let ledger = open_world();
    assert_eq!(
        ledger.token_account(&vault().0),
        Some(TokenAccount { authority: pda(), amount: 100 })
    );
    assert_eq!(
        ledger.escrow_account(&key(ESCROW)),
        Some(EscrowAccount {
            initializer_key: key(ALICE),
            initializer_deposit_token_account: key(ALICE_X),
            initializer_receive_token_account: key(ALICE_Y),
            initializer_amount: 100,
            taker_amount: 200,
        })
    );
    assert_ne!(ledger.token_account(&vault().0).unwrap().authority, key(ALICE));
    assert_eq!(balance(&ledger, &key(ALICE_X)), 400);
    assert_eq!(balance(&ledger, &key(ALICE_Y)), 0);
    assert_eq!(balance(&ledger, &key(BOB_Y)), 1000);
}

#[test]
fn initialize_may_lock_the_whole_deposit() {
    let mut ledger = world();
    let result = initialize(&key(PROGRAM), &initialize_accounts(), &mut ledger, vault().1, 500, 0);
    assert_eq!(result.map(|_| ()), Ok(()));
    assert_eq!(balance(&ledger, &key(ALICE_X)), 0);
    assert_eq!(balance(&ledger, &vault().0), 500);
    assert_eq!(ledger.escrow_account(&key(ESCROW)).unwrap().taker_amount, 0);
}

#[test]
fn initialize_needs_the_initializer_signature() {
    let mut ledger = world();
    let mut accounts = initialize_accounts();
    accounts.initializer.is_signer = false;
    let before = snapshot(&ledger);
    let result = initialize(&key(PROGRAM), &accounts, &mut ledger, vault().1, 100, 200);
    assert_eq!(result, Err(EscrowError::Unauthorized));
    assert_eq!(snapshot(&ledger), before);
}

#[test]
fn initialize_rejects_a_deposit_below_the_amount() {
    let mut ledger = world();
    let before = snapshot(&ledger);
    let result =
        initialize(&key(PROGRAM), &initialize_accounts(), &mut ledger, vault().1, 501, 200);
    assert_eq!(result, Err(EscrowError::InsufficientFunds));
    assert_eq!(snapshot(&ledger), before);
}

#[test]
fn initialize_rejects_an_empty_lock() {
    let mut ledger = world();
    let result = initialize(&key(PROGRAM), &initialize_accounts(), &mut ledger, vault().1, 0, 200);
    assert_eq!(result, Err(EscrowError::InvalidAmount));
    assert!(!ledger.contains(&key(ESCROW)));
}

#[test]
fn initialize_rejects_a_vault_address_that_is_not_derived() {
    let mut ledger = world();
    let mut accounts = initialize_accounts();
    accounts.vault_account = key(99);
    let result = initialize(&key(PROGRAM), &accounts, &mut ledger, vault().1, 100, 200);
    assert_eq!(result, Err(EscrowError::InvalidSeeds));
    assert!(!ledger.contains(&key(99)));
}

#[test]
fn initialize_rejects_another_disambiguator() {
    let mut ledger = world();
    let (_, bump) = vault();
    let other = if bump == 255 { 254 } else { bump + 1 };
    let result = initialize(&key(PROGRAM), &initialize_accounts(), &mut ledger, other, 100, 200);
    assert_eq!(result, Err(EscrowError::InvalidSeeds));
}

#[test]
fn initialize_rejects_missing_token_accounts() {
    let mut ledger = world();
    let mut accounts = initialize_accounts();
    accounts.initializer_receive_token_account = key(98);
    let result = initialize(&key(PROGRAM), &accounts, &mut ledger, vault().1, 100, 200);
    assert_eq!(result, Err(EscrowError::AccountNotFound));
    let mut accounts = initialize_accounts();
    accounts.initializer_deposit_token_account = key(ESCROW);
    let result = initialize(&key(PROGRAM), &accounts, &mut ledger, vault().1, 100, 200);
    assert_eq!(result, Err(EscrowError::AccountNotFound));
}

#[test]
fn initialize_rejects_a_second_escrow_while_the_vault_exists() {
    let mut ledger = open_world();
    let mut accounts = initialize_accounts();
    accounts.escrow_account = key(32);
    let before = snapshot(&ledger);
    let result = initialize(&key(PROGRAM), &accounts, &mut ledger, vault().1, 50, 10);
    assert_eq!(result, Err(EscrowError::AccountInUse));
    assert_eq!(snapshot(&ledger), before);
    assert!(!ledger.contains(&key(32)));
}

#[test]
fn initialize_rejects_a_record_address_in_use() {
    let mut ledger = world();
    let mut accounts = initialize_accounts();
    accounts.escrow_account = key(BOB_X);
    let result = initialize(&key(PROGRAM), &accounts, &mut ledger, vault().1, 100, 200);
    assert_eq!(result, Err(EscrowError::AccountInUse));
    let mut accounts = initialize_accounts();
    accounts.escrow_account = vault().0;
    let result = initialize(&key(PROGRAM), &accounts, &mut ledger, vault().1, 100, 200);
    assert_eq!(result, Err(EscrowError::AccountInUse));
}

#[test]
fn initialize_without_an_authority_fails() {
    let mut ledger = world();
    let result = initialize_with_addresses(
        &initialize_accounts(),
        &mut ledger,
        Some(vault().0),
        None,
        100,
        200,
    );
    assert_eq!(result, Err(EscrowError::AuthorityDerivationFailure));
    assert!(!ledger.contains(&vault().0));
}

#[test]
fn initialize_needs_the_deposit_authority() {
    let mut ledger = world();
    let mut accounts = initialize_accounts();
    accounts.initializer_deposit_token_account = key(BOB_Y);
    let before = snapshot(&ledger);
    let result = initialize(&key(PROGRAM), &accounts, &mut ledger, vault().1, 100, 200);
    assert_eq!(result, Err(EscrowError::Unauthorized));
    assert_eq!(snapshot(&ledger), before);
}

#[test]
fn initialize_with_addresses_uses_what_it_is_given() {
    let mut ledger = world();
    let mut accounts = initialize_accounts();
    accounts.vault_account = key(77);
    let result = initialize_with_addresses(
        &accounts,
        &mut ledger,
        Some(key(77)),
        Some((key(78), 3)),
        100,
        200,
    );
    assert_eq!(result.map(|_| ()), Ok(()));
    assert_eq!(
        ledger.token_account(&key(77)),
        Some(TokenAccount { authority: key(78), amount: 100 })
    );
}

#[test]
fn exchange_swaps_locked_funds_for_payment() {
    let mut ledger = open_world();
    let result = exchange(&key(PROGRAM), &exchange_accounts(), &mut ledger);
    assert_eq!(result.map(|_| ()), Ok(()));
    assert_eq!(balance(&ledger, &key(ALICE_Y)), 200);
    assert_eq!(balance(&ledger, &key(BOB_X)), 100);
    assert_eq!(balance(&ledger, &key(BOB_Y)), 800);
    assert_eq!(balance(&ledger, &key(ALICE_X)), 400);
    assert!(!ledger.contains(&vault().0));
    assert!(!ledger.contains(&key(ESCROW)));
    assert_eq!(ledger.escrow_account(&key(ESCROW)), None);
}

#[test]
fn exchange_keeps_the_authorities_of_the_accounts() {
    let mut ledger = open_world();
    exchange(&key(PROGRAM), &exchange_accounts(), &mut ledger).unwrap();
    assert_eq!(ledger.token_account(&key(ALICE_Y)).unwrap().authority, key(ALICE));
    assert_eq!(ledger.token_account(&key(BOB_X)).unwrap().authority, key(BOB));
    assert_eq!(ledger.token_account(&key(BOB_Y)).unwrap().authority, key(BOB));
}

#[test]
fn exchange_with_exactly_the_asked_amount() {
    let mut ledger = Ledger::new();
    ledger.create_account(key(ALICE_X), token(key(ALICE), 100)).unwrap();
    ledger.create_account(key(ALICE_Y), token(key(ALICE), 5)).unwrap();
    ledger.create_account(key(BOB_X), token(key(BOB), 7)).unwrap();
    ledger.create_account(key(BOB_Y), token(key(BOB), 200)).unwrap();
    initialize(&key(PROGRAM), &initialize_accounts(), &mut ledger, vault().1, 100, 200).unwrap();
    assert!(exchange(&key(PROGRAM), &exchange_accounts(), &mut ledger).is_ok());
    assert_eq!(balance(&ledger, &key(ALICE_X)), 0);
    assert_eq!(balance(&ledger, &key(ALICE_Y)), 205);
    assert_eq!(balance(&ledger, &key(BOB_X)), 107);
    assert_eq!(balance(&ledger, &key(BOB_Y)), 0);
}

#[test]
fn exchange_needs_a_record() {
    let mut ledger = world();
    ledger.create_account(vault().0, token(pda(), 100)).unwrap();
    let before = snapshot(&ledger);
    let result = exchange(&key(PROGRAM), &exchange_accounts(), &mut ledger);
    assert_eq!(result, Err(EscrowError::RecordNotFound));
    assert_eq!(snapshot(&ledger), before);
}

#[test]
fn exchange_takes_no_token_account_for_a_record() {
    let mut ledger = open_world();
    let mut accounts = exchange_accounts();
    accounts.escrow_account = key(ALICE_X);
    let result = exchange(&key(PROGRAM), &accounts, &mut ledger);
    assert_eq!(result, Err(EscrowError::RecordNotFound));
}

#[test]
fn exchange_needs_the_taker_signature() {
    let mut ledger = open_world();
    let mut accounts = exchange_accounts();
    accounts.taker.is_signer = false;
    let before = snapshot(&ledger);
    let result = exchange(&key(PROGRAM), &accounts, &mut ledger);
    assert_eq!(result, Err(EscrowError::Unauthorized));
    assert_eq!(snapshot(&ledger), before);
}

#[test]
fn exchange_needs_the_taker_to_hold_the_asked_amount() {
    let mut ledger = world();
    initialize(&key(PROGRAM), &initialize_accounts(), &mut ledger, vault().1, 100, 1001).unwrap();
    let before = snapshot(&ledger);
    let result = exchange(&key(PROGRAM), &exchange_accounts(), &mut ledger);
    assert_eq!(result, Err(EscrowError::InsufficientFunds));
    assert_eq!(snapshot(&ledger), before);
}

#[test]
fn exchange_rejects_another_receive_account() {
    let mut ledger = open_world();
    ledger.create_account(key(41), token(key(BOB), 0)).unwrap();
    let mut accounts = exchange_accounts();
    accounts.initializer_receive_token_account = key(41);
    let before = snapshot(&ledger);
    let result = exchange(&key(PROGRAM), &accounts, &mut ledger);
    assert_eq!(result, Err(EscrowError::MismatchedTerms));
    assert_eq!(snapshot(&ledger), before);
    assert_eq!(balance(&ledger, &key(41)), 0);
    assert_eq!(balance(&ledger, &key(BOB_Y)), 1000);
    assert_eq!(balance(&ledger, &vault().0), 100);
}

#[test]
fn exchange_rejects_another_deposit_account() {
    let mut ledger = open_world();
    let mut accounts = exchange_accounts();
    accounts.initializer_deposit_token_account = key(ALICE_Y);
    let result = exchange(&key(PROGRAM), &accounts, &mut ledger);
    assert_eq!(result, Err(EscrowError::MismatchedTerms));
}

#[test]
fn exchange_rejects_another_initializer() {
    let mut ledger = open_world();
    let mut accounts = exchange_accounts();
    accounts.initializer = unsigned(key(BOB));
    let result = exchange(&key(PROGRAM), &accounts, &mut ledger);
    assert_eq!(result, Err(EscrowError::MismatchedTerms));
    assert!(ledger.contains(&key(ESCROW)));
}

#[test]
fn exchange_rejects_missing_token_accounts() {
    let mut ledger = open_world();
    let mut accounts = exchange_accounts();
    accounts.taker_receive_token_account = key(97);
    let result = exchange(&key(PROGRAM), &accounts, &mut ledger);
    assert_eq!(result, Err(EscrowError::AccountNotFound));
    let mut accounts = exchange_accounts();
    accounts.vault_account = key(96);
    let result = exchange(&key(PROGRAM), &accounts, &mut ledger);
    assert_eq!(result, Err(EscrowError::AccountNotFound));
    let mut accounts = exchange_accounts();
    accounts.taker_deposit_token_account = key(95);
    let result = exchange(&key(PROGRAM), &accounts, &mut ledger);
    assert_eq!(result, Err(EscrowError::AccountNotFound));
}

#[test]
fn exchange_needs_the_authority_over_the_taker_deposit() {
    let mut ledger = open_world();
    let mut accounts = exchange_accounts();
    accounts.taker = signer(ALICE);
    let before = snapshot(&ledger);
    let result = exchange(&key(PROGRAM), &accounts, &mut ledger);
    assert_eq!(result, Err(EscrowError::Unauthorized));
    assert_eq!(snapshot(&ledger), before);
}

#[test]
fn exchange_needs_the_keyless_authority_for_the_vault() {
    let mut ledger = open_world();
    let mut accounts = exchange_accounts();
    accounts.vault_authority = signer(BOB);
    let before = snapshot(&ledger);
    let result = exchange(&key(PROGRAM), &accounts, &mut ledger);
    assert_eq!(result, Err(EscrowError::Unauthorized));
    assert_eq!(snapshot(&ledger), before);
    assert_eq!(balance(&ledger, &key(BOB_Y)), 1000);
    assert_eq!(balance(&ledger, &key(ALICE_Y)), 0);
}

#[test]
fn exchange_signs_only_for_the_derived_authority() {
    let mut ledger = open_world();
    let before = snapshot(&ledger);
    let result = exchange_with_authority(&exchange_accounts(), &mut ledger, Some((key(50), 255)));
    assert_eq!(result, Err(EscrowError::Unauthorized));
    assert_eq!(snapshot(&ledger), before);
}

#[test]
fn exchange_without_an_authority_fails() {
    let mut ledger = open_world();
    let before = snapshot(&ledger);
    let result = exchange_with_authority(&exchange_accounts(), &mut ledger, None);
    assert_eq!(result, Err(EscrowError::AuthorityDerivationFailure));
    assert_eq!(snapshot(&ledger), before);
}

#[test]
fn exchange_undoes_the_payment_when_the_vault_cannot_be_closed() {
    let mut ledger = open_world();
    let gift = anchor_escrow::calls::CpiContext::new(anchor_escrow::calls::Transfer {
        from: key(BOB_Y),
        to: vault().0,
        authority: signer(BOB),
    });
    ledger.transfer(&gift, 1).unwrap();
    let before = snapshot(&ledger);
    let result = exchange(&key(PROGRAM), &exchange_accounts(), &mut ledger);
    assert_eq!(result, Err(EscrowError::AccountNotEmpty));
    assert_eq!(snapshot(&ledger), before);
    assert_eq!(balance(&ledger, &key(BOB_Y)), 999);
    assert_eq!(balance(&ledger, &key(ALICE_Y)), 0);
    assert_eq!(balance(&ledger, &vault().0), 101);
}

#[test]
fn exchange_undoes_the_payment_when_the_release_overflows() {
    let mut ledger = Ledger::new();
    ledger.create_account(key(ALICE_X), token(key(ALICE), 500)).unwrap();
    ledger.create_account(key(ALICE_Y), token(key(ALICE), 0)).unwrap();
    ledger.create_account(key(BOB_X), token(key(BOB), u64::MAX)).unwrap();
    ledger.create_account(key(BOB_Y), token(key(BOB), 1000)).unwrap();
    initialize(&key(PROGRAM), &initialize_accounts(), &mut ledger, vault().1, 100, 200).unwrap();
    let before = snapshot(&ledger);
    let result = exchange(&key(PROGRAM), &exchange_accounts(), &mut ledger);
    assert_eq!(result, Err(EscrowError::Overflow));
    assert_eq!(snapshot(&ledger), before);
}

#[test]
fn cancel_returns_the_locked_funds() {
    let mut ledger = open_world();
    let result = cancel(&key(PROGRAM), &cancel_accounts(), &mut ledger);
    assert_eq!(result.map(|_| ()), Ok(()));
    assert_eq!(balance(&ledger, &key(ALICE_X)), 500);
    assert!(!ledger.contains(&vault().0));
    assert!(!ledger.contains(&key(ESCROW)));
    assert_eq!(balance(&ledger, &key(ALICE_Y)), 0);
    assert_eq!(balance(&ledger, &key(BOB_X)), 0);
    assert_eq!(balance(&ledger, &key(BOB_Y)), 1000);
}

#[test]
fn cancel_needs_a_record() {
    let mut ledger = world();
    let result = cancel(&key(PROGRAM), &cancel_accounts(), &mut ledger);
    assert_eq!(result, Err(EscrowError::RecordNotFound));
}

#[test]
fn cancel_needs_the_initializer_signature() {
    let mut ledger = open_world();
    let mut accounts = cancel_accounts();
    accounts.initializer.is_signer = false;
    let before = snapshot(&ledger);
    let result = cancel(&key(PROGRAM), &accounts, &mut ledger);
    assert_eq!(result, Err(EscrowError::Unauthorized));
    assert_eq!(snapshot(&ledger), before);
}

#[test]
fn cancel_is_for_the_initializer_alone() {
    let mut ledger = open_world();
    let mut accounts = cancel_accounts();
    accounts.initializer = signer(BOB);
    let before = snapshot(&ledger);
    let result = cancel(&key(PROGRAM), &accounts, &mut ledger);
    assert_eq!(result, Err(EscrowError::Unauthorized));
    assert_eq!(snapshot(&ledger), before);
}

#[test]
fn cancel_rejects_another_deposit_account() {
    let mut ledger = open_world();
    let mut accounts = cancel_accounts();
    accounts.initializer_deposit_token_account = key(ALICE_Y);
    let before = snapshot(&ledger);
    let result = cancel(&key(PROGRAM), &accounts, &mut ledger);
    assert_eq!(result, Err(EscrowError::Unauthorized));
    assert_eq!(snapshot(&ledger), before);
}

#[test]
fn cancel_rejects_missing_token_accounts() {
    let mut ledger = open_world();
    let mut accounts = cancel_accounts();
    accounts.vault_account = key(94);
    let result = cancel(&key(PROGRAM), &accounts, &mut ledger);
    assert_eq!(result, Err(EscrowError::AccountNotFound));
}

#[test]
fn cancel_without_an_authority_fails() {
    let mut ledger = open_world();
    let before = snapshot(&ledger);
    let result = cancel_with_authority(&cancel_accounts(), &mut ledger, None);
    assert_eq!(result, Err(EscrowError::AuthorityDerivationFailure));
    assert_eq!(snapshot(&ledger), before);
}

#[test]
fn cancel_fails_while_the_vault_holds_more_than_was_locked() {
    let mut ledger = open_world();
    let gift = anchor_escrow::calls::CpiContext::new(anchor_escrow::calls::Transfer {
        from: key(BOB_Y),
        to: vault().0,
        authority: signer(BOB),
    });
    ledger.transfer(&gift, 5).unwrap();
    let before = snapshot(&ledger);
    let result = cancel(&key(PROGRAM), &cancel_accounts(), &mut ledger);
    assert_eq!(result, Err(EscrowError::AccountNotEmpty));
    assert_eq!(snapshot(&ledger), before);
}

#[test]
fn exchange_after_exchange_finds_no_record() {
    let mut ledger = open_world();
    exchange(&key(PROGRAM), &exchange_accounts(), &mut ledger).unwrap();
    let before = snapshot(&ledger);
    let result = exchange(&key(PROGRAM), &exchange_accounts(), &mut ledger);
    assert_eq!(result, Err(EscrowError::RecordNotFound));
    assert_eq!(snapshot(&ledger), before);
    assert_eq!(balance(&ledger, &key(ALICE_Y)), 200);
    assert_eq!(balance(&ledger, &key(BOB_Y)), 800);
}

#[test]
fn cancel_after_exchange_finds_no_record() {
    let mut ledger = open_world();
    exchange(&key(PROGRAM), &exchange_accounts(), &mut ledger).unwrap();
    let before = snapshot(&ledger);
    let result = cancel(&key(PROGRAM), &cancel_accounts(), &mut ledger);
    assert_eq!(result, Err(EscrowError::RecordNotFound));
    assert_eq!(snapshot(&ledger), before);
    assert_eq!(balance(&ledger, &key(ALICE_X)), 400);
}

#[test]
fn exchange_after_cancel_finds_no_record() {
    let mut ledger = open_world();
    cancel(&key(PROGRAM), &cancel_accounts(), &mut ledger).unwrap();
    let before = snapshot(&ledger);
    let result = exchange(&key(PROGRAM), &exchange_accounts(), &mut ledger);
    assert_eq!(result, Err(EscrowError::RecordNotFound));
    assert_eq!(snapshot(&ledger), before);
    assert_eq!(balance(&ledger, &key(BOB_Y)), 1000);
}

#[test]
fn cancel_after_cancel_finds_no_record() {
    let mut ledger = open_world();
    cancel(&key(PROGRAM), &cancel_accounts(), &mut ledger).unwrap();
    let before = snapshot(&ledger);
    let result = cancel(&key(PROGRAM), &cancel_accounts(), &mut ledger);
    assert_eq!(result, Err(EscrowError::RecordNotFound));
    assert_eq!(snapshot(&ledger), before);
    assert_eq!(balance(&ledger, &key(ALICE_X)), 500);
}

#[test]
fn an_unsigned_call_on_a_closed_record_finds_no_record() {
    let mut ledger = open_world();
    exchange(&key(PROGRAM), &exchange_accounts(), &mut ledger).unwrap();
    let mut accounts = exchange_accounts();
    accounts.taker.is_signer = false;
    accounts.taker_receive_token_account = key(93);
    let result = exchange(&key(PROGRAM), &accounts, &mut ledger);
    assert_eq!(result, Err(EscrowError::RecordNotFound));
}

#[test]
fn a_new_escrow_can_follow_a_closed_one() {
    let mut ledger = open_world();
    cancel(&key(PROGRAM), &cancel_accounts(), &mut ledger).unwrap();
    let result = initialize(&key(PROGRAM), &initialize_accounts(), &mut ledger, vault().1, 300, 1);
    assert_eq!(result.map(|_| ()), Ok(()));
    assert_eq!(balance(&ledger, &vault().0), 300);
    assert_eq!(balance(&ledger, &key(ALICE_X)), 200);
    assert!(exchange(&key(PROGRAM), &exchange_accounts(), &mut ledger).is_ok());
    assert_eq!(balance(&ledger, &key(BOB_X)), 300);
    assert_eq!(balance(&ledger, &key(ALICE_Y)), 1);
    assert_eq!(balance(&ledger, &key(BOB_Y)), 999);
}

#[test]
fn initialize_returns_the_handover_and_the_lock() {
    let mut ledger = world();
    let accounts = initialize_accounts();
    let calls = initialize(&key(PROGRAM), &accounts, &mut ledger, vault().1, 100, 200).unwrap();
    assert_eq!(
        calls,
        vec![
            anchor_escrow::calls::TokenCall::SetAuthority(anchor_escrow::calls::CpiContext {
                    accounts: anchor_escrow::calls::SetAuthority {
                        account_or_mint: vault().0,
                        current_authority: signer(ALICE),
                    },
                    signer: None,
                }, pda()),
            anchor_escrow::calls::TokenCall::Transfer(anchor_escrow::calls::CpiContext {
                    accounts: anchor_escrow::calls::Transfer {
                        from: key(ALICE_X),
                        to: vault().0,
                        authority: signer(ALICE),
                    },
                    signer: None,
                }, 100),
        ]
    );
}

#[test]
fn exchange_returns_the_payment_the_release_and_the_closing() {
    let mut ledger = open_world();
    let calls = exchange(&key(PROGRAM), &exchange_accounts(), &mut ledger).unwrap();
    assert_eq!(
        calls,
        vec![
            anchor_escrow::calls::TokenCall::Transfer(anchor_escrow::calls::CpiContext {
                    accounts: anchor_escrow::calls::Transfer {
                        from: key(BOB_Y),
                        to: key(ALICE_Y),
                        authority: signer(BOB),
                    },
                    signer: None,
                }, 200),
            anchor_escrow::calls::TokenCall::Transfer(anchor_escrow::calls::CpiContext {
                    accounts: anchor_escrow::calls::Transfer {
                        from: vault().0,
                        to: key(BOB_X),
                        authority: unsigned(pda()),
                    },
                    signer: Some((pda(), pda_bump())),
                }, 100),
            anchor_escrow::calls::TokenCall::CloseAccount(anchor_escrow::calls::CpiContext {
                    accounts: anchor_escrow::calls::CloseAccount {
                        account: vault().0,
                        destination: key(ALICE),
                        authority: unsigned(pda()),
                    },
                    signer: Some((pda(), pda_bump())),
                }),
        ]
    );
}

#[test]
fn cancel_returns_the_refund_and_the_closing() {
    let mut ledger = open_world();
    let calls = cancel(&key(PROGRAM), &cancel_accounts(), &mut ledger).unwrap();
    assert_eq!(
        calls,
        vec![
            anchor_escrow::calls::TokenCall::Transfer(anchor_escrow::calls::CpiContext {
                    accounts: anchor_escrow::calls::Transfer {
                        from: vault().0,
                        to: key(ALICE_X),
                        authority: unsigned(pda()),
                    },
                    signer: Some((pda(), pda_bump())),
                }, 100),
            anchor_escrow::calls::TokenCall::CloseAccount(anchor_escrow::calls::CpiContext {
                    accounts: anchor_escrow::calls::CloseAccount {
                        account: vault().0,
                        destination: key(ALICE),
                        authority: unsigned(pda()),
                    },
                    signer: Some((pda(), pda_bump())),
                }),
        ]
    );
}

#[test]
fn the_calls_of_an_instruction_do_on_a_ledger_what_the_instruction_did() {
    let mut ledger = open_world();
    let mut replay = ledger.clone();
    let calls = exchange(&key(PROGRAM), &exchange_accounts(), &mut ledger).unwrap();
    assert_eq!(replay.invoke_all(&calls), Ok(()));
    replay.remove_account(&key(ESCROW));
    assert_eq!(snapshot(&replay), snapshot(&ledger));
}
