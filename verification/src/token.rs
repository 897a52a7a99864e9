//! Accounts of the token program, read through the token program's own
//! layout.

use crate::account::{AccountInfoValidation, AccountView};
use crate::error::ProgramError;
use crate::pubkey::{derived_address, find_program_address, pubkey_eq, Pubkey};
use crate::validation::AccountValidation;
use vstd::prelude::*;
use vstd::slice::slice_subrange;

use solana_program::program_pack::Pack;

verus! {

/// The address of the token program.
pub const SPL_TOKEN_ID: Pubkey = [
    6, 221, 246, 225, 215, 101, 161, 147, 217, 203, 225, 70, 206, 235, 121, 172, 28, 180, 133, 237,
    95, 91, 55, 145, 58, 140, 245, 133, 126, 255, 0, 169,
];

/// The address of the program that keeps the associated token accounts.
pub const ASSOCIATED_TOKEN_ID: Pubkey = [
    140, 151, 37, 143, 78, 36, 137, 241, 187, 61, 16, 41, 20, 142, 13, 131, 11, 90, 19, 153, 218,
    255, 16, 132, 4, 142, 123, 216, 219, 233, 248, 89,
];

/// The length of a mint in the token program's layout.
pub const MINT_LEN: usize = 82;

/// The length of a token account in the token program's layout.
pub const TOKEN_ACCOUNT_LEN: usize = 165;

/// A mint, as the token program keeps it.
#[derive(Clone, Copy, Debug, PartialEq, Eq)]
pub struct Mint {
    /// Who may mint new tokens, if anyone.
    pub mint_authority: Option<Pubkey>,
    /// The number of tokens there are.
    pub supply: u64,
    /// The number of decimal places of an amount.
    pub decimals: u8,
    /// Whether the mint was set up.
    pub is_initialized: bool,
    /// Who may freeze token accounts, if anyone.
    pub freeze_authority: Option<Pubkey>,
}

/// A token account that was set up, as the token program keeps it.
#[derive(Clone, Copy, Debug, PartialEq, Eq)]
pub struct TokenAccount {
    /// The mint of the tokens.
    pub mint: Pubkey,
    /// The holder of the tokens.
    pub owner: Pubkey,
    /// The number of tokens held.
    pub amount: u64,
    /// Who may spend for the holder, if anyone.
    pub delegate: Option<Pubkey>,
    /// Whether the account is frozen.
    pub is_frozen: bool,
    /// For an account of wrapped native tokens, the balance it must keep.
    pub is_native: Option<u64>,
    /// The amount that the delegate may spend.
    pub delegated_amount: u64,
    /// Who may close the account, if anyone but the holder.
    pub close_authority: Option<Pubkey>,
}

/// The mint that the token program reads from `data`, or `None` where it
/// reads none. It is a function of the bytes alone.
pub uninterp spec fn spl_mint(data: Seq<u8>) -> Option<Mint>;

/// The token account that the token program reads from `data`, or `None`
/// where it reads none. It is a function of the bytes alone.
pub uninterp spec fn spl_token_account(data: Seq<u8>) -> Option<TokenAccount>;

/// Reads a mint with `spl_token`'s `Mint::unpack`, and hands its fields on
/// as they are. As `unpack` documents, it reads exactly `MINT_LEN` bytes,
/// and only a mint that was set up.
#[verifier::external_body]
fn unpack_mint(data: &[u8]) -> (mint: Option<Mint>)
    ensures
        mint == spl_mint(data@),
        data@.len() != MINT_LEN ==> mint is None,
        mint is Some ==> mint->Some_0.is_initialized,
{
    let m = spl_token::state::Mint::unpack(data).ok()?;
    Some(
        Mint {
            mint_authority: m.mint_authority.map(|k| k.to_bytes()).into(),
            supply: m.supply,
            decimals: m.decimals,
            is_initialized: m.is_initialized,
            freeze_authority: m.freeze_authority.map(|k| k.to_bytes()).into(),
        },
    )
}

/// Reads a token account with `spl_token`'s `Account::unpack`, and hands its
/// fields on as they are; of its state, which is never the state before
/// set-up, whether it is frozen. As `unpack` documents, it reads exactly
/// `TOKEN_ACCOUNT_LEN` bytes.
#[verifier::external_body]
fn unpack_token_account(data: &[u8]) -> (account: Option<TokenAccount>)
    ensures
        account == spl_token_account(data@),
        data@.len() != TOKEN_ACCOUNT_LEN ==> account is None,
{
    let a = spl_token::state::Account::unpack(data).ok()?;
    Some(
        TokenAccount {
            mint: a.mint.to_bytes(),
            owner: a.owner.to_bytes(),
            amount: a.amount,
            delegate: a.delegate.map(|k| k.to_bytes()).into(),
            is_frozen: a.is_frozen(),
            is_native: a.is_native.into(),
            delegated_amount: a.delegated_amount,
            close_authority: a.close_authority.map(|k| k.to_bytes()).into(),
        },
    )
}

/// The seeds of the associated token account of `wallet` for `mint`.
pub open spec fn associated_seeds(wallet: Pubkey, mint: Pubkey) -> Seq<Seq<u8>> {
    seq![wallet@, SPL_TOKEN_ID@, mint@]
}

/// What reading a foreign record from the first `len` bytes of an account of
/// the token program gives, where `unpacked` is what the token program reads
/// from those bytes.
pub open spec fn spec_as_foreign<T>(account: &AccountView, len: usize, unpacked: Option<T>) -> Result<
    T,
    ProgramError,
> {
    if account.owner != SPL_TOKEN_ID {
        Err(ProgramError::InvalidAccountOwner)
    } else if account.data@.len() < len {
        Err(ProgramError::InvalidAccountData)
    } else {
        match unpacked {
            Some(record) => Ok(record),
            None => Err(ProgramError::InvalidAccountData),
        }
    }
}

/// The address of the token account that is associated with `wallet` for
/// `mint`: the address derived from the two and the token program's address
/// for the program that keeps these accounts.
pub fn associated_token_address(wallet: &Pubkey, mint: &Pubkey) -> (address: Option<Pubkey>)
    ensures
        match address {
            Some(address) => derived_address(
                associated_seeds(*wallet, *mint),
                ASSOCIATED_TOKEN_ID@,
            ) matches Some((derived, _)) && derived == address@,
            None => derived_address(associated_seeds(*wallet, *mint), ASSOCIATED_TOKEN_ID@)
                is None,
        },
{
    let seeds: [&[u8]; 3] = [wallet.as_slice(), SPL_TOKEN_ID.as_slice(), mint.as_slice()];
    let seeds = seeds.as_slice();
    assert(seeds.deep_view() =~~= associated_seeds(*wallet, *mint));
    match find_program_address(seeds, &ASSOCIATED_TOKEN_ID) {
        Some((address, _)) => Some(address),
        None => None,
    }
}

/// Reading the records of the token program from an account.
pub trait AsSplToken {
    /// The mint in an account of the token program.
    fn as_mint(&self) -> Result<Mint, ProgramError>;

    /// The token account in an account of the token program.
    fn as_token_account(&self) -> Result<TokenAccount, ProgramError>;

    /// The token account in the account that is associated with `owner` for
    /// `mint`.
    fn as_associated_token_account(&self, owner: &Pubkey, mint: &Pubkey) -> Result<
        TokenAccount,
        ProgramError,
    >;
}

impl AsSplToken for AccountView {
    fn as_mint(&self) -> (r: Result<Mint, ProgramError>)
        ensures
            r == spec_as_foreign(
                self,
                MINT_LEN,
                spl_mint(self.data@.subrange(0, MINT_LEN as int)),
            ),
    {
        if !pubkey_eq(&self.owner, &SPL_TOKEN_ID) {
            return Err(ProgramError::InvalidAccountOwner);
        }
        if self.data.len() < MINT_LEN {
            return Err(ProgramError::InvalidAccountData);
        }
        match unpack_mint(slice_subrange(self.data.as_slice(), 0, MINT_LEN)) {
            Some(mint) => Ok(mint),
            None => Err(ProgramError::InvalidAccountData),
        }
    }

    fn as_token_account(&self) -> (r: Result<TokenAccount, ProgramError>)
        ensures
            r == spec_as_foreign(
                self,
                TOKEN_ACCOUNT_LEN,
                spl_token_account(self.data@.subrange(0, TOKEN_ACCOUNT_LEN as int)),
            ),
    {
        if !pubkey_eq(&self.owner, &SPL_TOKEN_ID) {
            return Err(ProgramError::InvalidAccountOwner);
        }
        if self.data.len() < TOKEN_ACCOUNT_LEN {
            return Err(ProgramError::InvalidAccountData);
        }
        match unpack_token_account(slice_subrange(self.data.as_slice(), 0, TOKEN_ACCOUNT_LEN)) {
            Some(account) => Ok(account),
            None => Err(ProgramError::InvalidAccountData),
        }
    }

    fn as_associated_token_account(&self, owner: &Pubkey, mint: &Pubkey) -> (r: Result<
        TokenAccount,
        ProgramError,
    >)
        ensures
            r == (match derived_address(associated_seeds(*owner, *mint), ASSOCIATED_TOKEN_ID@) {
                Some((address, _)) => if address == self.key@ {
                    spec_as_foreign(
                        self,
                        TOKEN_ACCOUNT_LEN,
                        spl_token_account(self.data@.subrange(0, TOKEN_ACCOUNT_LEN as int)),
                    )
                } else {
                    Err(ProgramError::InvalidAccountData)
                },
                None => Err(ProgramError::InvalidSeeds),
            }),
    {
        match associated_token_address(owner, mint) {
            Some(address) => {
                proof {
                    if address@ == self.key@ {
                        assert(address =~= self.key);
                    }
                }
                match self.assert_key(&address) {
                    Ok(_) => self.as_token_account(),
                    Err(e) => Err(e),
                }
            },
            None => Err(ProgramError::InvalidSeeds),
        }
    }
}

impl AccountValidation for Mint {
}

impl AccountValidation for TokenAccount {
}

} // verus!
