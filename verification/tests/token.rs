use spl_token::solana_program::program_option::COption;
use spl_token::solana_program::program_pack::Pack;
use spl_token::solana_program::pubkey::Pubkey as SplPubkey;
use typed_accounts::{
    associated_token_address, AccountValidation, AccountView, AsSplToken, Mint, ProgramError,
    Pubkey, TokenAccount, ASSOCIATED_TOKEN_ID, MINT_LEN, SPL_TOKEN_ID, TOKEN_ACCOUNT_LEN,
};

const KEY: Pubkey = [1u8; 32];
const WALLET: Pubkey = [11u8; 32];
const MINT: Pubkey = [12u8; 32];

fn mint_bytes(initialized: bool) -> Vec<u8> {
    let mint = spl_token::state::Mint {
        mint_authority: COption::Some(SplPubkey::new_from_array(WALLET)),
        supply: 1_000_000,
        decimals: 6,
        is_initialized: initialized,
        freeze_authority: COption::None,
    };
    let mut bytes = vec![0u8; spl_token::state::Mint::LEN];
    mint.pack_into_slice(&mut bytes);
    bytes
}

fn token_account_bytes(state: spl_token::state::AccountState) -> Vec<u8> {
    let account = spl_token::state::Account {
        mint: SplPubkey::new_from_array(MINT),
        owner: SplPubkey::new_from_array(WALLET),
        amount: 250,
        delegate: COption::Some(SplPubkey::new_from_array(KEY)),
        state,
        is_native: COption::Some(17),
        delegated_amount: 50,
        close_authority: COption::None,
    };
    let mut bytes = vec![0u8; spl_token::state::Account::LEN];
    account.pack_into_slice(&mut bytes);
    bytes
}

fn token_owned(key: Pubkey, data: Vec<u8>) -> AccountView {
    AccountView::new(key, SPL_TOKEN_ID, 1, data, false, false, false)
}

#[test]
fn program_addresses_are_those_of_the_token_crates() {
    assert_eq!(SPL_TOKEN_ID, spl_token::ID.to_bytes());
    assert_eq!(ASSOCIATED_TOKEN_ID, spl_associated_token_account::ID.to_bytes());
    assert_eq!(MINT_LEN, spl_token::state::Mint::LEN);
    assert_eq!(TOKEN_ACCOUNT_LEN, spl_token::state::Account::LEN);
}

#[test]
fn mint_is_read() {
    let a = token_owned(KEY, mint_bytes(true));
    assert_eq!(
        a.as_mint(),
        Ok(Mint {
            mint_authority: Some(WALLET),
            supply: 1_000_000,
            decimals: 6,
            is_initialized: true,
            freeze_authority: None,
        })
    );
}

#[test]
fn mint_is_read_from_the_start_of_longer_data() {
    let mut data = mint_bytes(true);
    data.extend_from_slice(&[1, 2, 3]);
    let a = token_owned(KEY, data);
    assert_eq!(a.as_mint().map(|m| m.supply), Ok(1_000_000));
}

#[test]
fn mint_needs_the_token_program_as_owner() {
    let mut a = token_owned(KEY, mint_bytes(true));
    a.owner = [7u8; 32];
    assert_eq!(a.as_mint(), Err(ProgramError::InvalidAccountOwner));
}

#[test]
fn mint_needs_its_bytes() {
    let mut data = mint_bytes(true);
    data.pop();
    assert_eq!(token_owned(KEY, data).as_mint(), Err(ProgramError::InvalidAccountData));
    assert_eq!(token_owned(KEY, vec![]).as_mint(), Err(ProgramError::InvalidAccountData));
}

#[test]
fn mint_that_was_not_set_up_is_not_read() {
    assert_eq!(
        token_owned(KEY, mint_bytes(false)).as_mint(),
        Err(ProgramError::InvalidAccountData)
    );
    assert_eq!(
        token_owned(KEY, vec![0u8; 82]).as_mint(),
        Err(ProgramError::InvalidAccountData)
    );
}

#[test]
fn mint_with_a_broken_option_is_not_read() {
    let mut data = mint_bytes(true);
    data[0] = 2;
    assert_eq!(token_owned(KEY, data).as_mint(), Err(ProgramError::InvalidAccountData));
}

#[test]
fn token_account_is_read() {
    let a = token_owned(KEY, token_account_bytes(spl_token::state::AccountState::Initialized));
    assert_eq!(
        a.as_token_account(),
        Ok(TokenAccount {
            mint: MINT,
            owner: WALLET,
            amount: 250,
            delegate: Some(KEY),
            is_frozen: false,
            is_native: Some(17),
            delegated_amount: 50,
            close_authority: None,
        })
    );
}

#[test]
fn frozen_token_account_is_read_as_frozen() {
    let a = token_owned(KEY, token_account_bytes(spl_token::state::AccountState::Frozen));
    assert_eq!(a.as_token_account().map(|t| t.is_frozen), Ok(true));
}

#[test]
fn token_account_that_was_not_set_up_is_not_read() {
    let a = token_owned(KEY, token_account_bytes(spl_token::state::AccountState::Uninitialized));
    assert_eq!(a.as_token_account(), Err(ProgramError::InvalidAccountData));
}

#[test]
fn token_account_needs_owner_and_bytes() {
    let data = token_account_bytes(spl_token::state::AccountState::Initialized);
    let mut a = token_owned(KEY, data.clone());
    a.owner = [7u8; 32];
    assert_eq!(a.as_token_account(), Err(ProgramError::InvalidAccountOwner));
    let a = token_owned(KEY, data[..164].to_vec());
    assert_eq!(a.as_token_account(), Err(ProgramError::InvalidAccountData));
    // A mint is no token account.
    let a = token_owned(KEY, mint_bytes(true));
    assert_eq!(a.as_token_account(), Err(ProgramError::InvalidAccountData));
}

#[test]
fn associated_address_is_the_token_crates() {
    let expected = spl_associated_token_account::get_associated_token_address(
        &SplPubkey::new_from_array(WALLET),
        &SplPubkey::new_from_array(MINT),
    );
    assert_eq!(associated_token_address(&WALLET, &MINT), Some(expected.to_bytes()));
    assert_ne!(associated_token_address(&MINT, &WALLET), Some(expected.to_bytes()));
}

#[test]
fn associated_token_account_is_read_at_its_address() {
    let address = associated_token_address(&WALLET, &MINT).unwrap();
    let data = token_account_bytes(spl_token::state::AccountState::Initialized);
    let a = token_owned(address, data.clone());
    assert_eq!(a.as_associated_token_account(&WALLET, &MINT).map(|t| t.amount), Ok(250));
    assert_eq!(
        a.as_associated_token_account(&MINT, &WALLET),
        Err(ProgramError::InvalidAccountData)
    );
    let elsewhere = token_owned(KEY, data);
    assert_eq!(
        elsewhere.as_associated_token_account(&WALLET, &MINT),
        Err(ProgramError::InvalidAccountData)
    );
    let mut stranger = token_owned(address, vec![]);
    stranger.owner = [7u8; 32];
    assert_eq!(
        stranger.as_associated_token_account(&WALLET, &MINT),
        Err(ProgramError::InvalidAccountOwner)
    );
}

#[test]
fn conditions_on_token_records() {
    let a = token_owned(KEY, mint_bytes(true));
    let mint = a.as_mint().unwrap();
    assert!(mint.assert_that(|m| m.decimals == 6).is_ok());
    assert_eq!(
        mint.assert_err(|m| m.supply == 0, ProgramError::Custom(3)).err(),
        Some(ProgramError::Custom(3))
    );
    assert_eq!(
        mint.assert_msg(|m| m.freeze_authority.is_some(), "the mint can freeze").err(),
        Some(ProgramError::InvalidAccountData)
    );
    let a = token_owned(KEY, token_account_bytes(spl_token::state::AccountState::Initialized));
    let account = a.as_token_account().unwrap();
    assert!(account.assert_that(|t| t.owner == WALLET && t.mint == MINT).is_ok());
    assert_eq!(
        account.assert_that(|t| t.amount > 250).err(),
        Some(ProgramError::InvalidAccountData)
    );
}
