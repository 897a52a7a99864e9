//! Failure signals and the kinds they fall into.

use vstd::prelude::*;

verus! {

/// The failure signals that the operations of this crate return.
#[derive(Clone, Copy, Debug, PartialEq, Eq, Structural)]
pub enum ProgramError {
    /// A failure that the program itself defines, with its code.
    Custom(u32),
    /// The bytes of an instruction or event could not be decoded.
    InvalidInstructionData,
    /// The account's address, flags, size or type tag are not the expected ones.
    InvalidAccountData,
    /// The account's buffer cannot hold what was to be written.
    AccountDataTooSmall,
    /// The account did not sign, or may not be written.
    MissingRequiredSignature,
    /// The account holds data where none was expected, or the reverse.
    AccountAlreadyInitialized,
    /// The account's address is not the one derived from the seeds.
    InvalidSeeds,
    /// The account belongs to another program.
    InvalidAccountOwner,
    /// A balance would have left the range of `u64`.
    ArithmeticOverflow,
}

/// The kinds of failure. Each signal belongs to exactly one of them.
#[derive(Clone, Copy, Debug, PartialEq, Eq, Structural)]
pub enum ErrorKind {
    /// A signer or write permission is missing.
    MissingAuthorization,
    /// Owner, address, type tag, emptiness, size or derived address is wrong.
    InvalidAccountState,
    /// Instruction or event bytes do not decode.
    MalformedPayload,
    /// A balance would underflow or overflow.
    ArithmeticFault,
    /// Not enough space, or an allocation failed.
    AllocationFault,
    /// Defined by the program that uses this crate.
    ProgramDefined,
}

impl ProgramError {
    /// The kind of this signal.
    pub open spec fn spec_kind(self) -> ErrorKind {
        match self {
            ProgramError::Custom(_) => ErrorKind::ProgramDefined,
            ProgramError::InvalidInstructionData => ErrorKind::MalformedPayload,
            ProgramError::InvalidAccountData => ErrorKind::InvalidAccountState,
            ProgramError::AccountDataTooSmall => ErrorKind::AllocationFault,
            ProgramError::MissingRequiredSignature => ErrorKind::MissingAuthorization,
            ProgramError::AccountAlreadyInitialized => ErrorKind::InvalidAccountState,
            ProgramError::InvalidSeeds => ErrorKind::InvalidAccountState,
            ProgramError::InvalidAccountOwner => ErrorKind::InvalidAccountState,
            ProgramError::ArithmeticOverflow => ErrorKind::ArithmeticFault,
        }
    }

    /// The kind of this signal.
    pub fn kind(&self) -> (k: ErrorKind)
        ensures
            k == self.spec_kind(),
    {
        match self {
            ProgramError::Custom(_) => ErrorKind::ProgramDefined,
            ProgramError::InvalidInstructionData => ErrorKind::MalformedPayload,
            ProgramError::InvalidAccountData => ErrorKind::InvalidAccountState,
            ProgramError::AccountDataTooSmall => ErrorKind::AllocationFault,
            ProgramError::MissingRequiredSignature => ErrorKind::MissingAuthorization,
            ProgramError::AccountAlreadyInitialized => ErrorKind::InvalidAccountState,
            ProgramError::InvalidSeeds => ErrorKind::InvalidAccountState,
            ProgramError::InvalidAccountOwner => ErrorKind::InvalidAccountState,
            ProgramError::ArithmeticOverflow => ErrorKind::ArithmeticFault,
        }
    }
}

/// The failures of the sample program.
#[derive(Clone, Copy, Debug, PartialEq, Eq, Structural)]
pub enum MyError {
    /// The one failure it knows.
    Dummy,
}

impl MyError {
    /// The number that stands for this failure on the wire.
    pub open spec fn spec_code(self) -> u32 {
        match self {
            MyError::Dummy => 0,
        }
    }

    /// The number that stands for this failure on the wire.
    pub fn code(&self) -> (c: u32)
        ensures
            c == self.spec_code(),
    {
        match self {
            MyError::Dummy => 0,
        }
    }

    /// The text shown for this failure.
    pub fn message(&self) -> (m: &'static str)
        ensures
            m@ == "You did something wrong"@,
    {
        match self {
            MyError::Dummy => "You did something wrong",
        }
    }
}

impl From<MyError> for ProgramError {
    fn from(e: MyError) -> (r: ProgramError) {
        ProgramError::Custom(e.code())
    }
}

impl vstd::std_specs::convert::FromSpecImpl<MyError> for ProgramError {
    open spec fn obeys_from_spec() -> bool {
        true
    }

    open spec fn from_spec(e: MyError) -> ProgramError {
        ProgramError::Custom(e.spec_code())
    }
}

} // verus!
