//! The account handle and the checks that are chained on it.

use crate::discriminator::Discriminator;
use crate::error::ProgramError;
use crate::pubkey::{derived_address, find_program_address, pubkey_eq, Pubkey};
use vstd::prelude::*;

verus! {

/// What a program sees of one account while it runs: the address, the owning
/// program, the balance, the data and the three flags that the runtime sets.
#[derive(Clone, Debug)]
pub struct AccountView {
    /// The account's address.
    pub key: Pubkey,
    /// The program that controls the account.
    pub owner: Pubkey,
    /// The balance.
    pub lamports: u64,
    /// The data.
    pub data: Vec<u8>,
    /// Whether the account signed the transaction.
    pub is_signer: bool,
    /// Whether the account may be written.
    pub is_writable: bool,
    /// Whether the account holds a program.
    pub executable: bool,
}

/// Whether the data starts with `tag`.
pub open spec fn has_tag(data: Seq<u8>, tag: u8) -> bool {
    data.len() > 0 && data[0] == tag
}

/// Whether `key` is the address derived from `seeds` for `program_id`.
pub open spec fn is_derived_from(key: Pubkey, seeds: Seq<Seq<u8>>, program_id: Pubkey) -> bool {
    match derived_address(seeds, program_id@) {
        Some((address, _)) => address == key@,
        None => false,
    }
}

/// `Ok` with the account where `holds`, else the failure `otherwise`.
pub open spec fn checked(
    account: &AccountView,
    holds: bool,
    otherwise: ProgramError,
) -> Result<&AccountView, ProgramError> {
    if holds {
        Ok(account)
    } else {
        Err(otherwise)
    }
}

/// The outcome of a check that follows `first` with `?`: it is made only
/// where `first` passed.
pub open spec fn and_then_checked(
    first: Result<&AccountView, ProgramError>,
    holds: bool,
    otherwise: ProgramError,
) -> Result<&AccountView, ProgramError> {
    match first {
        Ok(account) => checked(account, holds, otherwise),
        Err(e) => Err(e),
    }
}

/// The checks on an account. Each returns the account it was given, so that
/// the next check can follow with `?`, or the failure of the first condition
/// that does not hold.
pub trait AccountInfoValidation {
    /// The account signed.
    fn assert_signer(&self) -> Result<&Self, ProgramError>;

    /// The account may be written.
    fn assert_writable(&self) -> Result<&Self, ProgramError>;

    /// The account holds a program.
    fn assert_executable(&self) -> Result<&Self, ProgramError>;

    /// The account holds no data.
    fn assert_empty(&self) -> Result<&Self, ProgramError>;

    /// The account holds data.
    fn assert_not_empty(&self) -> Result<&Self, ProgramError>;

    /// The account belongs to `program_id` and its data starts with the tag of `T`.
    fn assert_type<T: Discriminator>(&self, program_id: &Pubkey) -> Result<&Self, ProgramError>;

    /// The account is the program `program_id`.
    fn assert_program(&self, program_id: &Pubkey) -> Result<&Self, ProgramError>;

    /// The account's address is `address`.
    fn assert_key(&self, address: &Pubkey) -> Result<&Self, ProgramError>;

    /// The account belongs to `program_id`.
    fn assert_owner(&self, program_id: &Pubkey) -> Result<&Self, ProgramError>;

    /// The account's address is the one derived from `seeds` for `program_id`.
    fn assert_seeds(&self, seeds: &[&[u8]], program_id: &Pubkey) -> Result<&Self, ProgramError>;
}

impl AccountView {
    /// An account with these attributes.
    pub fn new(
        key: Pubkey,
        owner: Pubkey,
        lamports: u64,
        data: Vec<u8>,
        is_signer: bool,
        is_writable: bool,
        executable: bool,
    ) -> (account: AccountView)
        ensures
            account.key == key,
            account.owner == owner,
            account.lamports == lamports,
            account.data == data,
            account.is_signer == is_signer,
            account.is_writable == is_writable,
            account.executable == executable,
    {
        AccountView { key, owner, lamports, data, is_signer, is_writable, executable }
    }

    /// Whether the account holds no data.
    pub fn data_is_empty(&self) -> (empty: bool)
        ensures
            empty == (self.data@.len() == 0),
    {
        self.data.len() == 0
    }

    /// The account belongs to `program_id` and may be written: the two checks
    /// in this order, the second only where the first passed.
    pub fn assert_owner_writable(&self, program_id: &Pubkey) -> (r: Result<&Self, ProgramError>)
        ensures
            r == and_then_checked(
                checked(self, self.owner == *program_id, ProgramError::InvalidAccountOwner),
                self.is_writable,
                ProgramError::MissingRequiredSignature,
            ),
    {
        self.assert_owner(program_id)?.assert_writable()
    }

    /// The check of `assert_seeds` on an address that was derived already:
    /// `derived` is the outcome of the derivation.
    pub fn assert_derived(&self, derived: Option<(Pubkey, u8)>) -> (r: Result<&Self, ProgramError>)
        ensures
            r == checked(
                self,
                derived matches Some((address, _)) && address == self.key,
                ProgramError::InvalidSeeds,
            ),
    {
        match derived {
            Some((address, _)) => {
                if pubkey_eq(&self.key, &address) {
                    Ok(self)
                } else {
                    Err(ProgramError::InvalidSeeds)
                }
            },
            None => Err(ProgramError::InvalidSeeds),
        }
    }
}

impl AccountInfoValidation for AccountView {
    fn assert_signer(&self) -> (r: Result<&Self, ProgramError>)
        ensures
            r == checked(self, self.is_signer, ProgramError::MissingRequiredSignature),
    {
        if !self.is_signer {
            return Err(ProgramError::MissingRequiredSignature);
        }
        Ok(self)
    }

    fn assert_writable(&self) -> (r: Result<&Self, ProgramError>)
        ensures
            r == checked(self, self.is_writable, ProgramError::MissingRequiredSignature),
    {
        if !self.is_writable {
            return Err(ProgramError::MissingRequiredSignature);
        }
        Ok(self)
    }

    fn assert_executable(&self) -> (r: Result<&Self, ProgramError>)
        ensures
            r == checked(self, self.executable, ProgramError::InvalidAccountData),
    {
        if !self.executable {
            return Err(ProgramError::InvalidAccountData);
        }
        Ok(self)
    }

    fn assert_empty(&self) -> (r: Result<&Self, ProgramError>)
        ensures
            r == checked(self, self.data@.len() == 0, ProgramError::AccountAlreadyInitialized),
    {
        if !self.data_is_empty() {
            return Err(ProgramError::AccountAlreadyInitialized);
        }
        Ok(self)
    }

    fn assert_not_empty(&self) -> (r: Result<&Self, ProgramError>)
        ensures
            r == checked(self, self.data@.len() != 0, ProgramError::AccountAlreadyInitialized),
    {
        if self.data_is_empty() {
            return Err(ProgramError::AccountAlreadyInitialized);
        }
        Ok(self)
    }

    fn assert_type<T: Discriminator>(&self, program_id: &Pubkey) -> (r: Result<
        &Self,
        ProgramError,
    >)
        ensures
            r == checked(
                self,
                self.owner == *program_id && has_tag(self.data@, T::spec_discriminator()),
                ProgramError::InvalidAccountData,
            ),
    {
        if !pubkey_eq(&self.owner, program_id) {
            return Err(ProgramError::InvalidAccountData);
        }
        if self.data.len() == 0 {
            return Err(ProgramError::InvalidAccountData);
        }
        let expected_discriminator = T::discriminator();
        let actual_discriminator = self.data[0];
        if actual_discriminator != expected_discriminator {
            return Err(ProgramError::InvalidAccountData);
        }
        Ok(self)
    }

    fn assert_program(&self, program_id: &Pubkey) -> (r: Result<&Self, ProgramError>)
        ensures
            r == checked(
                self,
                self.key == *program_id && self.executable,
                ProgramError::InvalidAccountData,
            ),
    {
        self.assert_key(program_id)?.assert_executable()
    }

    fn assert_key(&self, address: &Pubkey) -> (r: Result<&Self, ProgramError>)
        ensures
            r == checked(self, self.key == *address, ProgramError::InvalidAccountData),
    {
        if !pubkey_eq(&self.key, address) {
            return Err(ProgramError::InvalidAccountData);
        }
        Ok(self)
    }

    fn assert_owner(&self, program_id: &Pubkey) -> (r: Result<&Self, ProgramError>)
        ensures
            r == checked(self, self.owner == *program_id, ProgramError::InvalidAccountOwner),
    {
        if !pubkey_eq(&self.owner, program_id) {
            return Err(ProgramError::InvalidAccountOwner);
        }
        Ok(self)
    }

    fn assert_seeds(&self, seeds: &[&[u8]], program_id: &Pubkey) -> (r: Result<
        &Self,
        ProgramError,
    >)
        ensures
            r == checked(
                self,
                is_derived_from(self.key, seeds.deep_view(), *program_id),
                ProgramError::InvalidSeeds,
            ),
    {
        let derived = find_program_address(seeds, program_id);
        proof {
            if let Some((address, _)) = derived {
                if address@ == self.key@ {
                    assert(address =~= self.key);
                }
            }
        }
        self.assert_derived(derived)
    }
}

} // verus!
