use vstd::prelude::*;

verus! {

/// Why an instruction, or one operation on the ledger, was refused.
#[derive(Clone, Copy, Debug, PartialEq, Eq, Structural)]
pub enum EscrowError {
    /// A token account holds less than the amount that has to leave it.
    InsufficientFunds,
    /// An account handed to `exchange` is not the one the escrow record names.
    MismatchedTerms,
    /// A required signature is missing, or the signer is not the authority
    /// that the operation needs.
    Unauthorized,
    /// There is no escrow record at the given address: it was never opened,
    /// or it has been exchanged or cancelled.
    RecordNotFound,
    /// No disambiguator gives the program a keyless authority.
    AuthorityDerivationFailure,
    /// There is no token account at the given address.
    AccountNotFound,
    /// An account is to be created at an address that already holds one.
    AccountInUse,
    /// A token account is to be closed while it still holds funds.
    AccountNotEmpty,
    /// A balance would exceed `u64::MAX`.
    Overflow,
    /// An escrow is to lock nothing, or a fee exceeds the amount it is taken from.
    InvalidAmount,
    /// The vault address is not the one derived from the vault seed, the
    /// disambiguator and the program.
    InvalidSeeds,
}

} // verus!
