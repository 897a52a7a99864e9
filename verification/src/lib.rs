//! Validation and typed access for runtime-managed accounts.
//!
//! An account is a region of memory that the host runtime hands to a program:
//! an address, an owning program, a balance and a byte buffer, all of them
//! chosen by an untrusted caller. This crate checks such accounts, reads and
//! writes tagged records in their buffers, and moves balances between them.
//! Every function states what it returns in its contract.
//!
//! An operation holds the accounts it works on for the time of the call: by
//! `&` where it only reads, by `&mut` where it writes, so that two writers of
//! one account cannot meet.

pub mod account;
pub mod codec;
pub mod discriminator;
pub mod error;
pub mod laws;
pub mod overlay;
pub mod pubkey;
pub mod records;
pub mod token;
pub mod transfer;
pub mod validation;

pub use account::{AccountInfoValidation, AccountView};
pub use codec::{read_fixed, read_tagged, to_bytes, FixedLayout, Payload};
pub use discriminator::{Discriminator, TagSpace};
pub use error::{ErrorKind, MyError, ProgramError};
pub use overlay::{
    write_fixed, AccountDeserialize, AccountHeaderDeserialize, Allocation, AsAccount,
};
pub use pubkey::{find_program_address, pubkey_eq, Pubkey, MAX_SEEDS, MAX_SEED_LEN};
pub use records::{
    Add, Counter, Initialize, Loggable, MyAccount, MyEvent, MyInstruction, Profile,
};
pub use token::{
    associated_token_address, AsSplToken, Mint, TokenAccount, ASSOCIATED_TOKEN_ID, MINT_LEN,
    SPL_TOKEN_ID, TOKEN_ACCOUNT_LEN,
};
pub use transfer::{CloseAccount, LamportTransfer, Transfer};
pub use validation::AccountValidation;
