use vstd::prelude::*;
use crate::calls::{AccountInfo, CloseAccount, CpiContext, SetAuthority, Transfer};
use crate::pubkey::Pubkey;

verus! {

/// The accounts of a transfer with a fee.
#[derive(Clone, Copy, Debug, PartialEq, Eq)]
pub struct TransferToken {
    /// Who pays; must have signed, and be the authority of the sender account.
    pub initializer: AccountInfo,
    /// The token account that is debited.
    pub sender_token_account: Pubkey,
    /// The token account that receives the amount less the fee.
    pub receiver_token_account: Pubkey,
    /// The token account that receives the fee.
    pub service_token_account: Pubkey,
}

impl TransferToken {
    /// What `into_transfer_to_receiver` returns.
    pub open spec fn spec_into_transfer_to_receiver(&self) -> CpiContext<Transfer> {
        CpiContext::new(
            Transfer {
                from: self.sender_token_account,
                to: self.receiver_token_account,
                authority: self.initializer,
            },
        )
    }

    /// The transfer from the sender to the receiver, on the initializer's word.
    #[verifier::when_used_as_spec(spec_into_transfer_to_receiver)]
    pub fn into_transfer_to_receiver(&self) -> (call: CpiContext<Transfer>)
        ensures
            call == self.spec_into_transfer_to_receiver(),
    {
        CpiContext::new(
            Transfer {
                from: self.sender_token_account,
                to: self.receiver_token_account,
                authority: self.initializer,
            },
        )
    }

    /// What `into_transfer_to_service` returns.
    pub open spec fn spec_into_transfer_to_service(&self) -> CpiContext<Transfer> {
        CpiContext::new(
            Transfer {
                from: self.sender_token_account,
                to: self.service_token_account,
                authority: self.initializer,
            },
        )
    }

    /// The transfer from the sender to the service account, on the initializer's word.
    #[verifier::when_used_as_spec(spec_into_transfer_to_service)]
    pub fn into_transfer_to_service(&self) -> (call: CpiContext<Transfer>)
        ensures
            call == self.spec_into_transfer_to_service(),
    {
        CpiContext::new(
            Transfer {
                from: self.sender_token_account,
                to: self.service_token_account,
                authority: self.initializer,
            },
        )
    }
}

/// The accounts of `initialize`.
#[derive(Clone, Copy, Debug, PartialEq, Eq)]
pub struct Initialize {
    /// Who opens the escrow; must have signed.
    pub initializer: AccountInfo,
    /// The address at which the vault is created.
    pub vault_account: Pubkey,
    /// The token account that the locked funds are taken from.
    pub initializer_deposit_token_account: Pubkey,
    /// The token account that is to receive the taker's payment.
    pub initializer_receive_token_account: Pubkey,
    /// The address at which the escrow record is written.
    pub escrow_account: Pubkey,
}

impl Initialize {
    /// What `into_transfer_to_pda_context` returns.
    pub open spec fn spec_into_transfer_to_pda_context(&self) -> CpiContext<Transfer> {
        CpiContext::new(
            Transfer {
                from: self.initializer_deposit_token_account,
                to: self.vault_account,
                authority: self.initializer,
            },
        )
    }

    /// The transfer that locks the funds: from the deposit account into the
    /// vault, on the initializer's word.
    #[verifier::when_used_as_spec(spec_into_transfer_to_pda_context)]
    pub fn into_transfer_to_pda_context(&self) -> (call: CpiContext<Transfer>)
        ensures
            call == self.spec_into_transfer_to_pda_context(),
    {
        CpiContext::new(
            Transfer {
                from: self.initializer_deposit_token_account,
                to: self.vault_account,
                authority: self.initializer,
            },
        )
    }

    /// What `into_set_authority_context` returns.
    pub open spec fn spec_into_set_authority_context(&self) -> CpiContext<SetAuthority> {
        CpiContext::new(
            SetAuthority {
                account_or_mint: self.vault_account,
                current_authority: self.initializer,
            },
        )
    }

    /// The change of authority over the vault, on the initializer's word.
    #[verifier::when_used_as_spec(spec_into_set_authority_context)]
    pub fn into_set_authority_context(&self) -> (call: CpiContext<SetAuthority>)
        ensures
            call == self.spec_into_set_authority_context(),
    {
        CpiContext::new(
            SetAuthority {
                account_or_mint: self.vault_account,
                current_authority: self.initializer,
            },
        )
    }
}

/// The accounts of `cancel`.
#[derive(Clone, Copy, Debug, PartialEq, Eq)]
pub struct Cancel {
    /// Who cancels; must have signed, and be the initializer that the record names.
    pub initializer: AccountInfo,
    /// The vault.
    pub vault_account: Pubkey,
    /// The authority over the vault.
    pub vault_authority: AccountInfo,
    /// The token account that the locked funds return to; must be the one
    /// that the record names.
    pub initializer_deposit_token_account: Pubkey,
    /// The address of the escrow record.
    pub escrow_account: Pubkey,
}

impl Cancel {
    /// What `into_transfer_to_initializer_context` returns.
    pub open spec fn spec_into_transfer_to_initializer_context(&self) -> CpiContext<Transfer> {
        CpiContext::new(
            Transfer {
                from: self.vault_account,
                to: self.initializer_deposit_token_account,
                authority: self.vault_authority,
            },
        )
    }

    /// The transfer that returns the locked funds: from the vault to the
    /// deposit account, on the vault authority's word.
    #[verifier::when_used_as_spec(spec_into_transfer_to_initializer_context)]
    pub fn into_transfer_to_initializer_context(&self) -> (call: CpiContext<Transfer>)
        ensures
            call == self.spec_into_transfer_to_initializer_context(),
    {
        CpiContext::new(
            Transfer {
                from: self.vault_account,
                to: self.initializer_deposit_token_account,
                authority: self.vault_authority,
            },
        )
    }

    /// What `into_close_context` returns.
    pub open spec fn spec_into_close_context(&self) -> CpiContext<CloseAccount> {
        CpiContext::new(
            CloseAccount {
                account: self.vault_account,
                destination: self.initializer.key,
                authority: self.vault_authority,
            },
        )
    }

    /// The closing of the vault in favour of the initializer, on the vault authority's word.
    #[verifier::when_used_as_spec(spec_into_close_context)]
    pub fn into_close_context(&self) -> (call: CpiContext<CloseAccount>)
        ensures
            call == self.spec_into_close_context(),
    {
        CpiContext::new(
            CloseAccount {
                account: self.vault_account,
                destination: self.initializer.key,
                authority: self.vault_authority,
            },
        )
    }
}

/// The accounts of `exchange`.
#[derive(Clone, Copy, Debug, PartialEq, Eq)]
pub struct Exchange {
    /// Who completes the swap; must have signed.
    pub taker: AccountInfo,
    /// The token account that the taker pays from.
    pub taker_deposit_token_account: Pubkey,
    /// The token account that receives the locked funds.
    pub taker_receive_token_account: Pubkey,
    /// Must be the deposit account that the record names.
    pub initializer_deposit_token_account: Pubkey,
    /// The token account that receives the taker's payment; must be the
    /// receive account that the record names.
    pub initializer_receive_token_account: Pubkey,
    /// Must be the initializer that the record names.
    pub initializer: AccountInfo,
    /// The address of the escrow record.
    pub escrow_account: Pubkey,
    /// The vault.
    pub vault_account: Pubkey,
    /// The authority over the vault.
    pub vault_authority: AccountInfo,
}

impl Exchange {
    /// What `into_transfer_to_initializer_context` returns.
    pub open spec fn spec_into_transfer_to_initializer_context(&self) -> CpiContext<Transfer> {
        CpiContext::new(
            Transfer {
                from: self.taker_deposit_token_account,
                to: self.initializer_receive_token_account,
                authority: self.taker,
            },
        )
    }

    /// The taker's payment: from the taker's deposit account to the
    /// initializer's receive account, on the taker's word.
    #[verifier::when_used_as_spec(spec_into_transfer_to_initializer_context)]
    pub fn into_transfer_to_initializer_context(&self) -> (call: CpiContext<Transfer>)
        ensures
            call == self.spec_into_transfer_to_initializer_context(),
    {
        CpiContext::new(
            Transfer {
                from: self.taker_deposit_token_account,
                to: self.initializer_receive_token_account,
                authority: self.taker,
            },
        )
    }

    /// What `into_transfer_to_taker_context` returns.
    pub open spec fn spec_into_transfer_to_taker_context(&self) -> CpiContext<Transfer> {
        CpiContext::new(
            Transfer {
                from: self.vault_account,
                to: self.taker_receive_token_account,
                authority: self.vault_authority,
            },
        )
    }

    /// The release of the locked funds: from the vault to the taker's receive
    /// account, on the vault authority's word.
    #[verifier::when_used_as_spec(spec_into_transfer_to_taker_context)]
    pub fn into_transfer_to_taker_context(&self) -> (call: CpiContext<Transfer>)
        ensures
            call == self.spec_into_transfer_to_taker_context(),
    {
        CpiContext::new(
            Transfer {
                from: self.vault_account,
                to: self.taker_receive_token_account,
                authority: self.vault_authority,
            },
        )
    }

    /// What `into_close_context` returns.
    pub open spec fn spec_into_close_context(&self) -> CpiContext<CloseAccount> {
        CpiContext::new(
            CloseAccount {
                account: self.vault_account,
                destination: self.initializer.key,
                authority: self.vault_authority,
            },
        )
    }

    /// The closing of the vault in favour of the initializer, on the vault authority's word.
    #[verifier::when_used_as_spec(spec_into_close_context)]
    pub fn into_close_context(&self) -> (call: CpiContext<CloseAccount>)
        ensures
            call == self.spec_into_close_context(),
    {
        CpiContext::new(
            CloseAccount {
                account: self.vault_account,
                destination: self.initializer.key,
                authority: self.vault_authority,
            },
        )
    }
}

} // verus!
