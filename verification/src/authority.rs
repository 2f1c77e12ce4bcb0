use vstd::prelude::*;
use crate::pubkey::Pubkey;

verus! {

/// The seed of the keyless authority that holds every vault.
pub const ESCROW_PDA_SEED: [u8; 6] = [101, 115, 99, 114, 111, 119];

/// The seed of the vault's address.
pub const VAULT_SEED: [u8; 10] = [116, 111, 107, 101, 110, 45, 115, 101, 101, 100];

/// The address and disambiguator that `Pubkey::try_find_program_address`
/// finds for the given seeds and program, if it finds any.
pub uninterp spec fn found_program_address(seeds: Seq<Seq<u8>>, program_id: Seq<u8>) -> Option<
    (Seq<u8>, u8),
>;

/// The address that `Pubkey::create_program_address` makes of the given
/// seeds and program, if it makes one.
pub uninterp spec fn created_program_address(seeds: Seq<Seq<u8>>, program_id: Seq<u8>) -> Option<
    Seq<u8>,
>;

/// Whether the bytes are a point of the curve on which signing keys lie, as
/// `Pubkey::is_on_curve` tells. An address that is no such point has no
/// private key, so nobody can sign for it.
pub uninterp spec fn is_curve_point(bytes: Seq<u8>) -> bool;

/// The keyless address that the program has under `seed`, with the
/// disambiguator that gives it.
pub open spec fn program_address(seed: Seq<u8>, program_id: Pubkey) -> Option<(Pubkey, u8)> {
    match found_program_address(seq![seed], program_id@) {
        Some((bytes, bump)) => Some((Pubkey::from_view(bytes), bump)),
        None => None,
    }
}

/// The keyless address that the program has under `seed` and the
/// disambiguator `bump`, if the two give one.
pub open spec fn program_address_with_bump(seed: Seq<u8>, bump: u8, program_id: Pubkey) -> Option<
    Pubkey,
> {
    match created_program_address(seq![seed, seq![bump]], program_id@) {
        Some(bytes) => Some(Pubkey::from_view(bytes)),
        None => None,
    }
}

/// The keyless authority of the program's vaults, with its disambiguator.
pub open spec fn vault_authority(program_id: Pubkey) -> Option<(Pubkey, u8)> {
    program_address(ESCROW_PDA_SEED@, program_id)
}

/// The address of the program's vault under the disambiguator `bump`.
pub open spec fn vault_address(program_id: Pubkey, bump: u8) -> Option<Pubkey> {
    program_address_with_bump(VAULT_SEED@, bump, program_id)
}

/// Calls `Pubkey::try_find_program_address` of solana-program (reached
/// through anchor-lang) with the one seed `seed`. Trusted: the result is
/// what that function returns, which depends on the seeds and the program
/// alone; an address that it returns is the one that
/// `Pubkey::create_program_address` makes of the seed and the disambiguator
/// returned with it, and is no curve point. The outside function tries the
/// disambiguators from 255 down to 1 and returns the first address that
/// `create_program_address` makes, or `None`; it does not panic.
#[verifier::external_body]
fn try_find_program_address(seed: &[u8], program_id: &Pubkey) -> (found: Option<(Pubkey, u8)>)
    ensures
        match found {
            Some((key, bump)) => {
                &&& found_program_address(seq![seed@], program_id@) == Some((key@, bump))
                &&& created_program_address(seq![seed@, seq![bump]], program_id@) == Some(key@)
                &&& !is_curve_point(key@)
            },
            None => found_program_address(seq![seed@], program_id@) is None,
        },
{
    let id = anchor_lang::prelude::Pubkey::new_from_array(program_id.bytes);
    match anchor_lang::prelude::Pubkey::try_find_program_address(&[seed], &id) {
        Some((key, bump)) => Some((Pubkey { bytes: key.to_bytes() }, bump)),
        None => None,
    }
}

/// Calls `Pubkey::create_program_address` of solana-program (reached through
/// anchor-lang) with the two seeds `seed` and the single byte `bump`.
/// Trusted: the result is the address that function returns, and `None`
/// where it returns an error; it depends on the seeds and the program alone,
/// and an address that it returns is no curve point. The outside function
/// hashes the seeds and the program's address, and refuses a hash that is a
/// curve point; it does not panic.
#[verifier::external_body]
fn create_program_address(seed: &[u8], bump: u8, program_id: &Pubkey) -> (made: Option<Pubkey>)
    ensures
        match made {
            Some(key) => created_program_address(seq![seed@, seq![bump]], program_id@) == Some(
                key@,
            ) && !is_curve_point(key@),
            None => created_program_address(seq![seed@, seq![bump]], program_id@) is None,
        },
{
    let id = anchor_lang::prelude::Pubkey::new_from_array(program_id.bytes);
    match anchor_lang::prelude::Pubkey::create_program_address(&[seed, &[bump]], &id) {
        Ok(key) => Some(Pubkey { bytes: key.to_bytes() }),
        Err(_) => None,
    }
}

/// Derives the keyless address that the program has under `seed`, and the
/// disambiguator that gives it: `derive_address_with_bump` makes the same
/// address of the seed and that disambiguator.
pub fn derive_address(seed: &[u8], program_id: &Pubkey) -> (found: Option<(Pubkey, u8)>)
    ensures
        found == program_address(seed@, *program_id),
        match found {
            Some((key, bump)) => !is_curve_point(key@) && program_address_with_bump(
                seed@,
                bump,
                *program_id,
            ) == Some(key),
            None => true,
        },
{
    let found = try_find_program_address(seed, program_id);
    proof {
        if let Some((key, _)) = found {
            Pubkey::lemma_from_view(key);
        }
    }
    found
}

/// Derives the keyless address that the program has under `seed` and the
/// disambiguator `bump`.
pub fn derive_address_with_bump(seed: &[u8], bump: u8, program_id: &Pubkey) -> (made: Option<
    Pubkey,
>)
    ensures
        made == program_address_with_bump(seed@, bump, *program_id),
        match made {
            Some(key) => !is_curve_point(key@),
            None => true,
        },
{
    let made = create_program_address(seed, bump, program_id);
    proof {
        if let Some(key) = made {
            Pubkey::lemma_from_view(key);
        }
    }
    made
}

/// Derives the keyless authority of the program's vaults.
pub fn find_vault_authority(program_id: &Pubkey) -> (found: Option<(Pubkey, u8)>)
    ensures
        found == vault_authority(*program_id),
        match found {
            Some((key, bump)) => !is_curve_point(key@) && program_address_with_bump(
                ESCROW_PDA_SEED@,
                bump,
                *program_id,
            ) == Some(key),
            None => true,
        },
{
    derive_address(ESCROW_PDA_SEED.as_slice(), program_id)
}

/// Derives the address of the program's vault under the disambiguator `bump`.
pub fn create_vault_address(program_id: &Pubkey, bump: u8) -> (made: Option<Pubkey>)
    ensures
        made == vault_address(*program_id, bump),
        match made {
            Some(key) => !is_curve_point(key@),
            None => true,
        },
{
    derive_address_with_bump(VAULT_SEED.as_slice(), bump, program_id)
}

} // verus!
