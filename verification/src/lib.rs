// A two-party token escrow, and a transfer with a fee, over a ledger of
// token accounts.
//
// One party locks funds in a vault and names what it wants in return; any
// taker may complete the swap, or the first party may cancel it. The vault
// is held by an authority without a key, derived from the program's
// address, for which the program alone signs.
//
// - `pubkey`, `state`, `calls`, `error`: addresses, what an address holds,
//   the calls that can be made on the ledger, and the errors.
// - `ledger`: the accounts by address, with transfer, change of authority
//   and closing of token accounts, and runs of such calls.
// - `authority`: the derivation of the keyless authority and of the vault's
//   address.
// - `instructions`: the accounts of each instruction.
// - `processor`: the instructions `initialize`, `exchange`, `cancel` and
//   `transfer`, each an all-or-nothing step on the ledger that returns the
//   calls it has made, for whoever has to make them elsewhere.
// - `laws`, `funds`, `custody`: what holds of the instructions.

pub mod authority;
pub mod calls;
pub mod custody;
pub mod error;
pub mod funds;
pub mod instructions;
pub mod laws;
pub mod ledger;
pub mod processor;
pub mod pubkey;
pub mod state;

pub use crate::error::EscrowError;
pub use crate::instructions::{Cancel, Exchange, Initialize, TransferToken};
pub use crate::ledger::Ledger;
pub use crate::processor::{cancel, exchange, initialize, transfer};
pub use crate::pubkey::Pubkey;
pub use crate::state::{AccountData, EscrowAccount, TokenAccount};
