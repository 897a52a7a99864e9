//! The two encodings of a tagged record.
//!
//! A buffer holds one tag byte and then the record's payload. A record with a
//! fixed layout is read from the bytes that follow the tag, and what comes
//! after them is left alone. A record of variable length takes up the whole
//! buffer.

use crate::discriminator::{Discriminator, TagSpace};
use crate::error::ProgramError;
use vstd::bytes::{spec_u64_from_le_bytes, spec_u64_to_le_bytes};
use vstd::prelude::*;
use vstd::slice::slice_subrange;

use borsh::BorshDeserialize;

verus! {

/// A record that is written as bytes and read back from them.
pub trait Payload: Sized {
    /// The bytes of the record, fields in the order of their declaration.
    spec fn spec_encode(&self) -> Seq<u8>;

    /// The record that the bytes hold, if they hold one.
    spec fn spec_decode(bytes: Seq<u8>) -> Option<Self>;

    /// What was written is read back.
    proof fn lemma_decode_encode(&self)
        ensures
            Self::spec_decode(self.spec_encode()) == Some(*self),
    ;

    /// Only what encoding writes is read.
    proof fn lemma_encode_decode(bytes: Seq<u8>)
        ensures
            Self::spec_decode(bytes) matches Some(record) ==> record.spec_encode() == bytes,
    ;

    /// The bytes of the record.
    fn encode(&self) -> (bytes: Vec<u8>)
        ensures
            bytes@ == self.spec_encode(),
    ;

    /// The record that the bytes hold.
    fn decode(bytes: &[u8]) -> (record: Option<Self>)
        ensures
            record == Self::spec_decode(bytes@),
    ;
}

/// A record whose encoding always has the same length.
pub trait FixedLayout: Payload {
    /// The length of the encoding.
    spec fn spec_size() -> nat;

    /// Exactly the byte strings of that length hold a record.
    proof fn lemma_size(bytes: Seq<u8>)
        ensures
            Self::spec_decode(bytes) is Some <==> bytes.len() == Self::spec_size(),
    ;

    /// The length of the encoding.
    fn size() -> (n: usize)
        ensures
            n == Self::spec_size(),
    ;
}

/// A tag byte followed by a payload.
pub open spec fn tagged(tag: u8, payload: Seq<u8>) -> Seq<u8> {
    seq![tag] + payload
}

/// The tagged encoding of a record.
pub open spec fn spec_to_bytes<T: Discriminator + Payload>(record: &T) -> Seq<u8> {
    tagged(T::spec_discriminator(), record.spec_encode())
}

/// Whether `data` can hold a record of `T` after a tag byte.
pub open spec fn holds_fixed<T: Discriminator + FixedLayout>(data: Seq<u8>) -> bool {
    data.len() >= 1 + T::spec_size() && data[0] == T::spec_discriminator()
}

/// The bytes of `data` in which a record of `T` lies.
pub open spec fn fixed_part<T: FixedLayout>(data: Seq<u8>) -> Seq<u8> {
    data.subrange(1, 1 + T::spec_size() as int)
}

/// The bytes of `data` that follow a record of `T`.
pub open spec fn body_part<T: FixedLayout>(data: Seq<u8>) -> Seq<u8> {
    data.subrange(1 + T::spec_size() as int, data.len() as int)
}

/// What reading a record with a fixed layout from `data` gives.
pub open spec fn spec_read_fixed<T: Discriminator + FixedLayout>(data: Seq<u8>) -> Result<
    T,
    ProgramError,
> {
    if holds_fixed::<T>(data) {
        Ok(T::spec_decode(fixed_part::<T>(data))->Some_0)
    } else {
        Err(ProgramError::InvalidAccountData)
    }
}

/// The failure that a wrong tag or payload gives in a tag space.
pub open spec fn spec_decode_failure(space: TagSpace) -> ProgramError {
    match space {
        TagSpace::Account => ProgramError::InvalidAccountData,
        TagSpace::Instruction => ProgramError::InvalidInstructionData,
    }
}

/// What reading a record of variable length from `data` gives.
pub open spec fn spec_read_tagged<T: Discriminator + Payload>(
    space: TagSpace,
    data: Seq<u8>,
) -> Result<T, ProgramError> {
    if data.len() >= 1 && data[0] == T::spec_discriminator() && T::spec_decode(data.skip(1))
        is Some {
        Ok(T::spec_decode(data.skip(1))->Some_0)
    } else {
        Err(spec_decode_failure(space))
    }
}

/// The failure that a wrong tag or payload gives in a tag space.
pub fn decode_failure(space: TagSpace) -> (e: ProgramError)
    ensures
        e == spec_decode_failure(space),
{
    match space {
        TagSpace::Account => ProgramError::InvalidAccountData,
        TagSpace::Instruction => ProgramError::InvalidInstructionData,
    }
}

/// Encodes a record: its tag, then its payload.
pub fn to_bytes<T: Discriminator + Payload>(record: &T) -> (bytes: Vec<u8>)
    ensures
        bytes@ == spec_to_bytes(record),
{
    let payload = record.encode();
    let mut bytes: Vec<u8> = Vec::new();
    bytes.push(T::discriminator());
    bytes.extend_from_slice(payload.as_slice());
    bytes
}

/// Reads a record with a fixed layout: `data` must be long enough and start
/// with the tag of `T`. Bytes after the record are not looked at.
pub fn read_fixed<T: Discriminator + FixedLayout>(data: &[u8]) -> (r: Result<T, ProgramError>)
    ensures
        r == spec_read_fixed::<T>(data@),
{
    let size = T::size();
    if data.len() == 0 || data.len() - 1 < size {
        return Err(ProgramError::InvalidAccountData);
    }
    if data[0] != T::discriminator() {
        return Err(ProgramError::InvalidAccountData);
    }
    let part = slice_subrange(data, 1, 1 + size);
    proof {
        T::lemma_size(part@);
    }
    match T::decode(part) {
        Some(record) => Ok(record),
        None => Err(ProgramError::InvalidAccountData),
    }
}

/// Reads a record of variable length: `data` must start with the tag of `T`,
/// and all that follows must be the record.
pub fn read_tagged<T: Discriminator + Payload>(space: TagSpace, data: &[u8]) -> (r: Result<
    T,
    ProgramError,
>)
    ensures
        r == spec_read_tagged::<T>(space, data@),
{
    if data.len() == 0 {
        return Err(decode_failure(space));
    }
    if data[0] != T::discriminator() {
        return Err(decode_failure(space));
    }
    let rest = slice_subrange(data, 1, data.len());
    assert(rest@ == data@.skip(1));
    match T::decode(rest) {
        Some(record) => Ok(record),
        None => Err(decode_failure(space)),
    }
}

/// The eight bytes of a `u64`, written by `borsh::to_vec`: the number in
/// little-endian order, as the format defines it. Writing into a vector
/// does not fail.
#[verifier::external_body]
pub(crate) fn borsh_u64_to_vec(value: u64) -> (bytes: Vec<u8>)
    ensures
        bytes@ == spec_u64_to_le_bytes(value),
{
    borsh::to_vec(&value).unwrap()
}

/// A `u64` read by borsh's `try_from_slice`: it takes exactly eight bytes, in
/// little-endian order, and fails on fewer and on more.
#[verifier::external_body]
pub(crate) fn borsh_u64_from_slice(data: &[u8]) -> (value: Option<u64>)
    ensures
        data@.len() == 8 ==> value == Some(spec_u64_from_le_bytes(data@)),
        data@.len() != 8 ==> value is None,
{
    u64::try_from_slice(data).ok()
}

/// The bytes of an array of eight bytes, written by `borsh::to_vec`: the
/// eight bytes as they are, with no length before them. Writing into a
/// vector does not fail.
#[verifier::external_body]
pub(crate) fn borsh_bytes8_to_vec(value: &[u8; 8]) -> (bytes: Vec<u8>)
    ensures
        bytes@ == value@,
{
    borsh::to_vec(value).unwrap()
}

/// An array of eight bytes read by borsh's `try_from_slice`: it takes exactly
/// eight bytes as they are, and fails on fewer and on more.
#[verifier::external_body]
pub(crate) fn borsh_bytes8_from_slice(data: &[u8]) -> (value: Option<[u8; 8]>)
    ensures
        data@.len() == 8 ==> value is Some && value->Some_0@ == data@,
        data@.len() != 8 ==> value is None,
{
    <[u8; 8]>::try_from_slice(data).ok()
}

} // verus!
