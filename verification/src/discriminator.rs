//! One-byte type tags.

use vstd::prelude::*;

verus! {

/// A record type with a tag. The tag is the first byte of every buffer that
/// holds a record of the type. Tags of account records and tags of
/// instructions are two separate spaces.
pub trait Discriminator {
    /// The tag of the type.
    spec fn spec_discriminator() -> u8;

    /// The tag of the type.
    fn discriminator() -> (tag: u8)
        ensures
            tag == Self::spec_discriminator(),
    ;
}

/// The space a tag is read in. It decides which failure a wrong tag gives.
#[derive(Clone, Copy, Debug, PartialEq, Eq, Structural)]
pub enum TagSpace {
    /// Tags of account records.
    Account,
    /// Tags of instructions and events.
    Instruction,
}

} // verus!
