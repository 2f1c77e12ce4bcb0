use vstd::prelude::*;
use crate::pubkey::Pubkey;

verus! {

/// An account as an instruction receives it: its address, and whether its
/// holder signed.
#[derive(Clone, Copy, Debug, PartialEq, Eq)]
pub struct AccountInfo {
    pub key: Pubkey,
    pub is_signer: bool,
}

/// The accounts of a transfer between two token accounts.
#[derive(Clone, Copy, Debug, PartialEq, Eq)]
pub struct Transfer {
    pub from: Pubkey,
    pub to: Pubkey,
    pub authority: AccountInfo,
}

/// The accounts of a change of authority over a token account.
#[derive(Clone, Copy, Debug, PartialEq, Eq)]
pub struct SetAuthority {
    pub account_or_mint: Pubkey,
    pub current_authority: AccountInfo,
}

/// The accounts of the closing of a token account.
#[derive(Clone, Copy, Debug, PartialEq, Eq)]
pub struct CloseAccount {
    pub account: Pubkey,
    pub destination: Pubkey,
    pub authority: AccountInfo,
}

/// The accounts of one call to the ledger, and the keyless address, if any,
/// for which the program signs the call, with the disambiguator that gives
/// the address.
#[derive(Debug, PartialEq, Eq)]
pub struct CpiContext<T> {
    pub accounts: T,
    pub signer: Option<(Pubkey, u8)>,
}

impl<T: Copy> Clone for CpiContext<T> {
    /// The same call.
    fn clone(&self) -> (copy: CpiContext<T>)
        ensures
            copy == *self,
    {
        *self
    }
}

impl<T: Copy> Copy for CpiContext<T> {

}

impl<T> CpiContext<T> {
    /// A call that the program does not sign.
    pub open spec fn spec_new(accounts: T) -> CpiContext<T> {
        CpiContext { accounts, signer: None }
    }

    /// A call that the program does not sign.
    #[verifier::when_used_as_spec(spec_new)]
    pub fn new(accounts: T) -> (context: CpiContext<T>)
        ensures
            context == Self::spec_new(accounts),
    {
        CpiContext { accounts, signer: None }
    }

    /// The same call, signed by the program for the keyless address
    /// `signer`, which the disambiguator `bump` gives.
    pub open spec fn spec_with_signer(self, signer: Pubkey, bump: u8) -> CpiContext<T> {
        CpiContext { accounts: self.accounts, signer: Some((signer, bump)) }
    }

    /// The same call, signed by the program for the keyless address
    /// `signer`, which the disambiguator `bump` gives.
    #[verifier::when_used_as_spec(spec_with_signer)]
    pub fn with_signer(self, signer: Pubkey, bump: u8) -> (context: CpiContext<T>)
        ensures
            context == self.spec_with_signer(signer, bump),
    {
        CpiContext { accounts: self.accounts, signer: Some((signer, bump)) }
    }
}

/// Whether a call may dispose of what `holder` holds: the authority that
/// the call names is `holder`, and has signed or is the address for which
/// the program signs the call.
pub open spec fn signs_for(
    authority: AccountInfo,
    signer: Option<(Pubkey, u8)>,
    holder: Pubkey,
) -> bool {
    authority.key == holder && (authority.is_signer || match signer {
        Some((address, _)) => address == authority.key,
        None => false,
    })
}

/// Whether a call may dispose of what `holder` holds.
pub fn may_sign_for(
    authority: &AccountInfo,
    signer: &Option<(Pubkey, u8)>,
    holder: &Pubkey,
) -> (may: bool)
    ensures
        may == signs_for(*authority, *signer, *holder),
{
    if authority.key != *holder {
        return false;
    }
    if authority.is_signer {
        return true;
    }
    match signer {
        Some((address, _)) => *address == authority.key,
        None => false,
    }
}

/// One call to the ledger.
#[derive(Clone, Copy, Debug, PartialEq, Eq)]
pub enum TokenCall {
    /// Move the amount given from one token account to another.
    Transfer(CpiContext<Transfer>, u64),
    /// Hand a token account over to the authority given.
    SetAuthority(CpiContext<SetAuthority>, Pubkey),
    /// Close an empty token account.
    CloseAccount(CpiContext<CloseAccount>),
}

} // verus!
