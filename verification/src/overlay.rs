//! Typed access to the data of an account.

use crate::account::AccountView;
use crate::codec::{
    body_part, fixed_part, holds_fixed, read_fixed, read_tagged, spec_read_fixed,
    spec_read_tagged, spec_to_bytes, to_bytes, FixedLayout, Payload,
};
use crate::discriminator::{Discriminator, TagSpace};
use crate::error::ProgramError;
use crate::pubkey::{pubkey_eq, Pubkey};
use vstd::prelude::*;
use vstd::slice::{slice_subrange, slice_to_vec};

verus! {

/// `data` with `bytes` written over it from the position `start` on.
pub open spec fn spec_write_at(data: Seq<u8>, start: int, bytes: Seq<u8>) -> Seq<u8> {
    data.subrange(0, start) + bytes + data.subrange(start + bytes.len(), data.len() as int)
}

/// Writes `bytes` over `data` from the position `start` on.
fn write_at(data: &mut [u8], start: usize, bytes: &[u8])
    requires
        start + bytes@.len() <= old(data)@.len(),
    ensures
        final(data)@ == spec_write_at(old(data)@, start as int, bytes@),
{
    let len = data.len();
    let mut i: usize = 0;
    while i < bytes.len()
        invariant
            i <= bytes@.len(),
            data@.len() == old(data)@.len(),
            start + bytes@.len() <= len == data@.len(),
            data@ == spec_write_at(old(data)@, start as int, bytes@.subrange(0, i as int)),
        decreases bytes@.len() - i,
    {
        data[start + i] = bytes[i];
        i += 1;
    }
    assert(bytes@.subrange(0, i as int) == bytes@);
}

/// The encoding of a record with a fixed layout has the length of the layout.
pub proof fn lemma_encoded_size<T: FixedLayout>(record: &T)
    ensures
        record.spec_encode().len() == T::spec_size(),
{
    record.lemma_decode_encode();
    T::lemma_size(record.spec_encode());
}

/// A record that was written over the one in `data` is the one that is read
/// from there afterwards.
pub proof fn lemma_read_after_write<T: Discriminator + FixedLayout>(data: Seq<u8>, record: &T)
    requires
        holds_fixed::<T>(data),
    ensures
        spec_write_at(data, 1, record.spec_encode()).len() == data.len(),
        spec_read_fixed::<T>(spec_write_at(data, 1, record.spec_encode())) == Ok::<
            T,
            ProgramError,
        >(*record),
        body_part::<T>(spec_write_at(data, 1, record.spec_encode())) == body_part::<T>(data),
{
    lemma_encoded_size(record);
    record.lemma_decode_encode();
    let written = spec_write_at(data, 1, record.spec_encode());
    assert(fixed_part::<T>(written) =~= record.spec_encode());
    assert(body_part::<T>(written) =~= body_part::<T>(data));
}

/// Writes `record` into `data`, over the record of its type that lies there;
/// the tag and what follows the record stay as they are.
pub fn write_fixed<T: Discriminator + FixedLayout>(record: &T, data: &mut [u8]) -> (r: Result<
    (),
    ProgramError,
>)
    ensures
        final(data)@.len() == old(data)@.len(),
        holds_fixed::<T>(old(data)@) ==> r is Ok && final(data)@ == spec_write_at(
            old(data)@,
            1,
            record.spec_encode(),
        ),
        !holds_fixed::<T>(old(data)@) ==> r == Err::<(), ProgramError>(
            ProgramError::InvalidAccountData,
        ) && final(data)@ == old(data)@,
{
    let size = T::size();
    if data.len() == 0 || data.len() - 1 < size {
        return Err(ProgramError::InvalidAccountData);
    }
    if data[0] != T::discriminator() {
        return Err(ProgramError::InvalidAccountData);
    }
    let bytes = record.encode();
    proof {
        lemma_encoded_size(record);
    }
    write_at(data, 1, bytes.as_slice());
    Ok(())
}

/// Reading and changing a record with a fixed layout in a buffer that starts
/// with the record's tag.
pub trait AccountDeserialize: Discriminator + FixedLayout {
    /// The record that lies in `data` after the tag.
    fn try_from_bytes(data: &[u8]) -> (r: Result<Self, ProgramError>)
        ensures
            r == spec_read_fixed::<Self>(data@),
    ;

    /// Replaces the record that lies in `data` by what `update` makes of it.
    /// Nothing else in `data` changes.
    fn try_from_bytes_mut<F: FnOnce(Self) -> Self>(data: &mut [u8], update: F) -> (r: Result<
        (),
        ProgramError,
    >)
        requires
            holds_fixed::<Self>(old(data)@) ==> update.requires(
                (spec_read_fixed::<Self>(old(data)@)->Ok_0,),
            ),
        ensures
            final(data)@.len() == old(data)@.len(),
            holds_fixed::<Self>(old(data)@) ==> {
                let updated = spec_read_fixed::<Self>(final(data)@);
                &&& r is Ok
                &&& updated is Ok
                &&& update.ensures((spec_read_fixed::<Self>(old(data)@)->Ok_0,), updated->Ok_0)
                &&& final(data)@ == spec_write_at(old(data)@, 1, updated->Ok_0.spec_encode())
            },
            !holds_fixed::<Self>(old(data)@) ==> r == Err::<(), ProgramError>(
                ProgramError::InvalidAccountData,
            ) && final(data)@ == old(data)@,
    ;
}

impl<T: Discriminator + FixedLayout> AccountDeserialize for T {
    fn try_from_bytes(data: &[u8]) -> (r: Result<Self, ProgramError>) {
        read_fixed::<T>(data)
    }

    fn try_from_bytes_mut<F: FnOnce(Self) -> Self>(data: &mut [u8], update: F) -> (r: Result<
        (),
        ProgramError,
    >) {
        match read_fixed::<T>(data) {
            Ok(record) => {
                let updated = update(record);
                proof {
                    lemma_read_after_write::<T>(data@, &updated);
                }
                write_fixed(&updated, data)
            },
            Err(e) => Err(e),
        }
    }
}

/// Reading a header with a fixed layout and the body that follows it. What
/// the body means is for the caller to say: it is handed out as it is.
pub trait AccountHeaderDeserialize: Discriminator + FixedLayout {
    /// The header that lies in `data` after the tag, and the bytes after it.
    fn try_header_from_bytes(data: &[u8]) -> (r: Result<(Self, &[u8]), ProgramError>)
        ensures
            match r {
                Ok((header, body)) => {
                    &&& holds_fixed::<Self>(data@)
                    &&& spec_read_fixed::<Self>(data@) == Ok::<Self, ProgramError>(header)
                    &&& body@ == body_part::<Self>(data@)
                },
                Err(e) => !holds_fixed::<Self>(data@) && e == ProgramError::InvalidAccountData,
            },
    ;

    /// The header that lies in `data` after the tag, and the bytes after it,
    /// which the caller may change in place.
    fn try_header_from_bytes_mut(data: &mut [u8]) -> (r: Result<(Self, &mut [u8]), ProgramError>)
        ensures
            match r {
                Ok((header, body)) => {
                    let kept = old(data)@.subrange(0, 1 + Self::spec_size() as int);
                    &&& holds_fixed::<Self>(old(data)@)
                    &&& spec_read_fixed::<Self>(old(data)@) == Ok::<Self, ProgramError>(header)
                    &&& body@ == body_part::<Self>(old(data)@)
                    &&& final(data)@ == kept + final(body)@
                },
                Err(e) => {
                    &&& !holds_fixed::<Self>(old(data)@)
                    &&& e == ProgramError::InvalidAccountData
                    &&& final(data)@ == old(data)@
                },
            },
    ;
}

impl<T: Discriminator + FixedLayout> AccountHeaderDeserialize for T {
    fn try_header_from_bytes(data: &[u8]) -> (r: Result<(Self, &[u8]), ProgramError>) {
        let len = data.len();
        match read_fixed::<T>(data) {
            Ok(header) => {
                let body = slice_subrange(data, 1 + T::size(), len);
                Ok((header, body))
            },
            Err(e) => Err(e),
        }
    }

    fn try_header_from_bytes_mut(data: &mut [u8]) -> (r: Result<(Self, &mut [u8]), ProgramError>) {
        let len = data.len();
        match read_fixed::<T>(data) {
            Ok(header) => {
                assert(1 + T::spec_size() <= len);
                let (_, body) = data.split_at_mut(1 + T::size());
                Ok((header, body))
            },
            Err(e) => Err(e),
        }
    }
}

/// Whether two accounts differ in their data at most.
pub open spec fn same_but_data(before: &AccountView, after: &AccountView) -> bool {
    &&& after.key == before.key
    &&& after.owner == before.owner
    &&& after.lamports == before.lamports
    &&& after.is_signer == before.is_signer
    &&& after.is_writable == before.is_writable
    &&& after.executable == before.executable
}

/// What reading a record of `T` from an account gives to the program
/// `program_id`.
pub open spec fn spec_as_account<T: Discriminator + FixedLayout>(
    account: &AccountView,
    program_id: Pubkey,
) -> Result<T, ProgramError> {
    if account.owner != program_id {
        Err(ProgramError::InvalidAccountOwner)
    } else {
        spec_read_fixed::<T>(account.data@)
    }
}

/// What decoding a record of `T` from the whole data of an account gives to
/// the program `program_id`.
pub open spec fn spec_decode_account<T: Discriminator + Payload>(
    account: &AccountView,
    program_id: Pubkey,
) -> Result<T, ProgramError> {
    if account.owner != program_id {
        Err(ProgramError::InvalidAccountOwner)
    } else {
        spec_read_tagged::<T>(TagSpace::Account, account.data@)
    }
}

/// Whether the program `program_id` may write `record` into the account, and
/// the failure if it may not.
pub open spec fn spec_save_check<T: Discriminator + Payload>(
    account: &AccountView,
    program_id: Pubkey,
    record: &T,
) -> Result<(), ProgramError> {
    if account.owner != program_id {
        Err(ProgramError::InvalidAccountOwner)
    } else if !account.is_writable {
        Err(ProgramError::MissingRequiredSignature)
    } else if account.data@.len() < spec_to_bytes(record).len() {
        Err(ProgramError::AccountDataTooSmall)
    } else {
        Ok(())
    }
}

/// Whether a new account may be made at the address of `account`, and the
/// failure if it may not.
pub open spec fn spec_create_check(
    account: &AccountView,
    system_program: &AccountView,
) -> Result<(), ProgramError> {
    if account.data@.len() != 0 {
        Err(ProgramError::AccountAlreadyInitialized)
    } else if account.owner != system_program.key {
        Err(ProgramError::InvalidAccountOwner)
    } else if !account.is_writable {
        Err(ProgramError::MissingRequiredSignature)
    } else {
        Ok(())
    }
}

/// What is asked of the allocator: `space` bytes at the address `target`,
/// paid for by `funder`, to belong to `owner`. Where `seeds` is not empty,
/// the target's address is derived from them, and they stand in for its
/// signature.
#[derive(Clone, Debug)]
pub struct Allocation {
    /// The address of the new account.
    pub target: Pubkey,
    /// The address of the account that pays.
    pub funder: Pubkey,
    /// The number of bytes the new account holds.
    pub space: usize,
    /// The program the new account belongs to.
    pub owner: Pubkey,
    /// The seeds of the target's address.
    pub seeds: Vec<Vec<u8>>,
}

/// A copy of the seeds.
pub fn copy_seeds(seeds: &[&[u8]]) -> (copy: Vec<Vec<u8>>)
    ensures
        copy.deep_view() == seeds.deep_view(),
{
    let mut copy: Vec<Vec<u8>> = Vec::new();
    let mut i: usize = 0;
    while i < seeds.len()
        invariant
            i <= seeds@.len(),
            copy@.len() == i,
            forall|j: int| 0 <= j < i ==> (#[trigger] copy@[j])@ == seeds@[j]@,
        decreases seeds@.len() - i,
    {
        copy.push(slice_to_vec(seeds[i]));
        i += 1;
    }
    assert(copy.deep_view() =~~= seeds.deep_view());
    copy
}

/// Typed access to the record in an account's data. The data starts with
/// the record's tag; the record follows.
pub trait AsAccount {
    /// The record of `T` in an account of the program `program_id`.
    fn as_account<T: Discriminator + FixedLayout>(&self, program_id: &Pubkey) -> Result<
        T,
        ProgramError,
    >;

    /// The record of `T` that fills the data of an account of the program
    /// `program_id`: the way to read a record of variable length.
    fn decode_account<T: Discriminator + Payload>(&self, program_id: &Pubkey) -> Result<
        T,
        ProgramError,
    >;

    /// Replaces the record of `T` in an account of the program `program_id`
    /// by what `update` makes of it. The account is held for the time of the
    /// call, and nothing but the record changes.
    fn as_account_mut<T: Discriminator + FixedLayout, F: FnOnce(T) -> T>(
        &mut self,
        program_id: &Pubkey,
        update: F,
    ) -> Result<(), ProgramError>
        requires
            forall|record: T| update.requires((record,)),
    ;

    /// Writes `record` with its tag at the start of the data of a writable
    /// account of the program `program_id`. The data is never made longer:
    /// where the record does not fit, nothing is written.
    fn save_account<T: Discriminator + Payload>(
        &mut self,
        program_id: &Pubkey,
        record: &T,
    ) -> Result<(), ProgramError>;

    /// Prepares a new account for `record`: the account must be empty,
    /// writable and still with the allocator `system_program`. What is
    /// returned is to be asked of the allocator; `save_account` then writes
    /// the record into what it made.
    fn create_account<T: Discriminator + Payload>(
        &self,
        record: &T,
        system_program: &AccountView,
        payer: &AccountView,
        owner: &Pubkey,
        seeds: &[&[u8]],
    ) -> Result<Allocation, ProgramError>;
}

impl AsAccount for AccountView {
    fn as_account<T: Discriminator + FixedLayout>(&self, program_id: &Pubkey) -> (r: Result<
        T,
        ProgramError,
    >)
        ensures
            r == spec_as_account::<T>(self, *program_id),
    {
        if !pubkey_eq(&self.owner, program_id) {
            return Err(ProgramError::InvalidAccountOwner);
        }
        read_fixed::<T>(self.data.as_slice())
    }

    fn decode_account<T: Discriminator + Payload>(&self, program_id: &Pubkey) -> (r: Result<
        T,
        ProgramError,
    >)
        ensures
            r == spec_decode_account::<T>(self, *program_id),
    {
        if !pubkey_eq(&self.owner, program_id) {
            return Err(ProgramError::InvalidAccountOwner);
        }
        read_tagged::<T>(TagSpace::Account, self.data.as_slice())
    }

    fn as_account_mut<T: Discriminator + FixedLayout, F: FnOnce(T) -> T>(
        &mut self,
        program_id: &Pubkey,
        update: F,
    ) -> (r: Result<(), ProgramError>)
        ensures
            same_but_data(old(self), final(self)),
            match spec_as_account::<T>(old(self), *program_id) {
                Ok(record) => {
                    let updated = spec_as_account::<T>(final(self), *program_id);
                    &&& r is Ok
                    &&& updated is Ok
                    &&& update.ensures((record,), updated->Ok_0)
                    &&& final(self).data@ == spec_write_at(
                        old(self).data@,
                        1,
                        updated->Ok_0.spec_encode(),
                    )
                },
                Err(e) => r == Err::<(), ProgramError>(e) && *final(self) == *old(self),
            },
    {
        if !pubkey_eq(&self.owner, program_id) {
            return Err(ProgramError::InvalidAccountOwner);
        }
        match read_fixed::<T>(self.data.as_slice()) {
            Ok(record) => {
                let updated = update(record);
                proof {
                    lemma_read_after_write::<T>(self.data@, &updated);
                }
                write_fixed(&updated, self.data.as_mut_slice())
            },
            Err(e) => Err(e),
        }
    }

    fn save_account<T: Discriminator + Payload>(&mut self, program_id: &Pubkey, record: &T) -> (r:
        Result<(), ProgramError>)
        ensures
            r == spec_save_check(old(self), *program_id, record),
            same_but_data(old(self), final(self)),
            r is Ok ==> final(self).data@ == spec_write_at(
                old(self).data@,
                0,
                spec_to_bytes(record),
            ),
            r is Err ==> *final(self) == *old(self),
    {
        match self.assert_owner_writable(program_id) {
            Ok(_) => {},
            Err(e) => {
                return Err(e);
            },
        }
        let bytes = to_bytes(record);
        if self.data.len() < bytes.len() {
            return Err(ProgramError::AccountDataTooSmall);
        }
        write_at(self.data.as_mut_slice(), 0, bytes.as_slice());
        Ok(())
    }

    fn create_account<T: Discriminator + Payload>(
        &self,
        record: &T,
        system_program: &AccountView,
        payer: &AccountView,
        owner: &Pubkey,
        seeds: &[&[u8]],
    ) -> (r: Result<Allocation, ProgramError>)
        ensures
            match r {
                Ok(allocation) => {
                    &&& spec_create_check(self, system_program) is Ok
                    &&& allocation.target == self.key
                    &&& allocation.funder == payer.key
                    &&& allocation.space == spec_to_bytes(record).len()
                    &&& allocation.owner == *owner
                    &&& allocation.seeds.deep_view() == seeds.deep_view()
                },
                Err(e) => spec_create_check(self, system_program) == Err::<(), ProgramError>(e),
            },
    {
        if self.data.len() != 0 {
            return Err(ProgramError::AccountAlreadyInitialized);
        }
        if !pubkey_eq(&self.owner, &system_program.key) {
            return Err(ProgramError::InvalidAccountOwner);
        }
        if !self.is_writable {
            return Err(ProgramError::MissingRequiredSignature);
        }
        let serialized = to_bytes(record);
        Ok(
            Allocation {
                target: self.key,
                funder: payer.key,
                space: serialized.len(),
                owner: *owner,
                seeds: copy_seeds(seeds),
            },
        )
    }
}

} // verus!
