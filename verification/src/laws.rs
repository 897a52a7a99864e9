//! What holds across the functions of this crate.

use crate::account::{and_then_checked, checked, AccountView};
use crate::codec::{
    fixed_part, spec_read_fixed, spec_read_tagged, spec_to_bytes, FixedLayout, Payload,
};
use crate::discriminator::{Discriminator, TagSpace};
use crate::error::{ErrorKind, ProgramError};
use crate::overlay::{
    lemma_encoded_size, same_but_data, spec_as_account, spec_decode_account, spec_save_check,
    spec_write_at, Allocation,
};
use crate::pubkey::Pubkey;
use vstd::prelude::*;

verus! {

/// Where an account belongs to the program, its data starts with the tag of
/// `T` and is long enough for a record of `T`, the record is read, and it is
/// the one whose encoding the bytes after the tag are.
pub proof fn lemma_as_account_reads_the_bytes<T: Discriminator + FixedLayout>(
    account: &AccountView,
    program_id: Pubkey,
)
    requires
        account.owner == program_id,
        account.data@.len() >= 1 + T::spec_size(),
        account.data@[0] == T::spec_discriminator(),
    ensures
        spec_as_account::<T>(account, program_id) is Ok,
        spec_as_account::<T>(account, program_id)->Ok_0.spec_encode() == account.data@.subrange(
            1,
            1 + T::spec_size() as int,
        ),
{
    let part = fixed_part::<T>(account.data@);
    T::lemma_size(part);
    T::lemma_encode_decode(part);
}

/// Where an account's data does not start with the tag of `T`, no record of
/// `T` is read from it, whoever owns the account, and the failure is one of
/// the account's state.
pub proof fn lemma_as_account_rejects_other_tags<T: Discriminator + FixedLayout>(
    account: &AccountView,
    program_id: Pubkey,
)
    requires
        account.data@.len() == 0 || account.data@[0] != T::spec_discriminator(),
    ensures
        spec_as_account::<T>(account, program_id) is Err,
        spec_as_account::<T>(account, program_id)->Err_0.spec_kind()
            == ErrorKind::InvalidAccountState,
{
}

/// Where an account belongs to another program, the check of its owner fails
/// with a failure of the account's state, and a check of write permission
/// that follows it is not made: the outcome is the owner's failure whether
/// or not the account may be written.
pub proof fn lemma_owner_check_comes_first(account: &AccountView, program_id: Pubkey)
    requires
        account.owner != program_id,
    ensures
        checked(account, account.owner == program_id, ProgramError::InvalidAccountOwner) == Err::<
            &AccountView,
            ProgramError,
        >(ProgramError::InvalidAccountOwner),
        ProgramError::InvalidAccountOwner.spec_kind() == ErrorKind::InvalidAccountState,
        and_then_checked(
            checked(account, account.owner == program_id, ProgramError::InvalidAccountOwner),
            account.is_writable,
            ProgramError::MissingRequiredSignature,
        ) == Err::<&AccountView, ProgramError>(ProgramError::InvalidAccountOwner),
{
}

/// Decoding what was encoded gives the record back, in either tag space.
pub proof fn lemma_round_trip<T: Discriminator + Payload>(space: TagSpace, record: &T)
    ensures
        spec_read_tagged::<T>(space, spec_to_bytes(record)) == Ok::<T, ProgramError>(*record),
{
    record.lemma_decode_encode();
    assert(spec_to_bytes(record).skip(1) =~= record.spec_encode());
}

/// Decoding accepts only what encoding writes: bytes that decode to a record
/// are that record's encoding.
pub proof fn lemma_decoded_bytes_are_canonical<T: Discriminator + Payload>(
    space: TagSpace,
    data: Seq<u8>,
)
    requires
        spec_read_tagged::<T>(space, data) is Ok,
    ensures
        spec_to_bytes(&spec_read_tagged::<T>(space, data)->Ok_0) == data,
{
    T::lemma_encode_decode(data.skip(1));
    assert(spec_to_bytes(&spec_read_tagged::<T>(space, data)->Ok_0) =~= data);
}

/// The encoding of a record with a fixed layout is read back by the reader
/// for fixed layouts, and is one byte longer than the layout.
pub proof fn lemma_fixed_round_trip<T: Discriminator + FixedLayout>(record: &T)
    ensures
        spec_to_bytes(record).len() == 1 + T::spec_size(),
        spec_read_fixed::<T>(spec_to_bytes(record)) == Ok::<T, ProgramError>(*record),
{
    lemma_encoded_size(record);
    record.lemma_decode_encode();
    assert(fixed_part::<T>(spec_to_bytes(record)) =~= record.spec_encode());
}

/// A record that was saved into an account is the one read from it
/// afterwards: the data then starts with the record's tag, and has the
/// length it had.
pub proof fn lemma_saved_record_is_read<T: Discriminator + FixedLayout>(
    before: &AccountView,
    after: &AccountView,
    program_id: Pubkey,
    record: &T,
)
    requires
        spec_save_check(before, program_id, record) is Ok,
        same_but_data(before, after),
        after.data@ == spec_write_at(before.data@, 0, spec_to_bytes(record)),
    ensures
        after.data@.len() == before.data@.len(),
        after.data@[0] == T::spec_discriminator(),
        spec_as_account::<T>(after, program_id) == Ok::<T, ProgramError>(*record),
{
    lemma_encoded_size(record);
    record.lemma_decode_encode();
    assert(fixed_part::<T>(after.data@) =~= record.spec_encode());
}

/// An account that the allocator made as it was asked to, for a record with
/// a fixed layout, takes the record: after saving, its data is the record's
/// tag and the record, one byte more than the layout, and the record is read
/// back by the program that the account was made for.
pub proof fn lemma_created_record_is_read<T: Discriminator + FixedLayout>(
    allocation: &Allocation,
    allocated: &AccountView,
    populated: &AccountView,
    record: &T,
)
    requires
        allocation.space == spec_to_bytes(record).len(),
        allocated.key == allocation.target,
        allocated.owner == allocation.owner,
        allocated.data@.len() == allocation.space,
        allocated.is_writable,
        same_but_data(allocated, populated),
        populated.data@ == spec_write_at(allocated.data@, 0, spec_to_bytes(record)),
    ensures
        spec_save_check(allocated, allocation.owner, record) is Ok,
        populated.key == allocation.target,
        populated.owner == allocation.owner,
        populated.data@ == spec_to_bytes(record),
        populated.data@.len() == 1 + T::spec_size(),
        populated.data@[0] == T::spec_discriminator(),
        spec_as_account::<T>(populated, allocation.owner) == Ok::<T, ProgramError>(*record),
{
    lemma_encoded_size(record);
    lemma_saved_record_is_read(allocated, populated, allocation.owner, record);
    assert(populated.data@ =~= spec_to_bytes(record));
}

/// A record that was saved into an account whose data it fills is the one
/// decoded from the account afterwards.
pub proof fn lemma_saved_record_is_decoded<T: Discriminator + Payload>(
    before: &AccountView,
    after: &AccountView,
    program_id: Pubkey,
    record: &T,
)
    requires
        spec_save_check(before, program_id, record) is Ok,
        before.data@.len() == spec_to_bytes(record).len(),
        same_but_data(before, after),
        after.data@ == spec_write_at(before.data@, 0, spec_to_bytes(record)),
    ensures
        after.data@ == spec_to_bytes(record),
        spec_decode_account::<T>(after, program_id) == Ok::<T, ProgramError>(*record),
{
    assert(after.data@ =~= spec_to_bytes(record));
    lemma_round_trip(TagSpace::Account, record);
}

} // verus!
