//! The records of the sample program: two accounts, two instructions and one
//! event, with the registries that give them their tags.

use crate::codec::{
    borsh_bytes8_from_slice, borsh_bytes8_to_vec, borsh_u64_from_slice, borsh_u64_to_vec,
    read_tagged, spec_read_tagged, spec_to_bytes, to_bytes, FixedLayout, Payload,
};
use crate::discriminator::{Discriminator, TagSpace};
use crate::error::ProgramError;
use vstd::array::{spec_array_fill_for_copy_type, spec_array_update};
use vstd::bytes::{
    lemma_auto_spec_u64_to_from_le_bytes, spec_u64_from_le_bytes, spec_u64_to_le_bytes,
};
use vstd::prelude::*;

verus! {

/// The kinds of account of the sample program.
#[derive(Clone, Copy, Debug, PartialEq, Eq, Structural)]
pub enum MyAccount {
    /// A [`Counter`].
    Counter,
    /// A [`Profile`].
    Profile,
}

impl MyAccount {
    /// The tag of the kind.
    pub open spec fn spec_tag(self) -> u8 {
        match self {
            MyAccount::Counter => 0,
            MyAccount::Profile => 1,
        }
    }

    /// The kind with the tag `number`, if there is one.
    pub open spec fn spec_try_from_primitive(number: u8) -> Option<MyAccount> {
        if number == 0 {
            Some(MyAccount::Counter)
        } else if number == 1 {
            Some(MyAccount::Profile)
        } else {
            None
        }
    }

    /// The tag of the kind.
    pub fn tag(self) -> (tag: u8)
        ensures
            tag == self.spec_tag(),
    {
        match self {
            MyAccount::Counter => 0,
            MyAccount::Profile => 1,
        }
    }

    /// The kind with the tag `number`, if there is one.
    pub fn try_from_primitive(number: u8) -> (kind: Option<MyAccount>)
        ensures
            kind == Self::spec_try_from_primitive(number),
    {
        if number == 0 {
            Some(MyAccount::Counter)
        } else if number == 1 {
            Some(MyAccount::Profile)
        } else {
            None
        }
    }

    /// A tag names one kind, and every kind is found again by its tag.
    pub proof fn lemma_tags(kind: MyAccount, number: u8)
        ensures
            Self::spec_try_from_primitive(kind.spec_tag()) == Some(kind),
            Self::spec_try_from_primitive(number) == Some(kind) <==> number == kind.spec_tag(),
    {
    }
}

impl From<MyAccount> for u8 {
    fn from(kind: MyAccount) -> (tag: u8) {
        kind.tag()
    }
}

impl vstd::std_specs::convert::FromSpecImpl<MyAccount> for u8 {
    open spec fn obeys_from_spec() -> bool {
        true
    }

    open spec fn from_spec(kind: MyAccount) -> u8 {
        kind.spec_tag()
    }
}

/// The kinds of instruction of the sample program.
#[derive(Clone, Copy, Debug, PartialEq, Eq, Structural)]
pub enum MyInstruction {
    /// An [`Add`].
    Add,
    /// An [`Initialize`].
    Initialize,
}

impl MyInstruction {
    /// The tag of the kind.
    pub open spec fn spec_tag(self) -> u8 {
        match self {
            MyInstruction::Add => 0,
            MyInstruction::Initialize => 1,
        }
    }

    /// The kind with the tag `number`, if there is one.
    pub open spec fn spec_try_from_primitive(number: u8) -> Option<MyInstruction> {
        if number == 0 {
            Some(MyInstruction::Add)
        } else if number == 1 {
            Some(MyInstruction::Initialize)
        } else {
            None
        }
    }

    /// The tag of the kind.
    pub fn tag(self) -> (tag: u8)
        ensures
            tag == self.spec_tag(),
    {
        match self {
            MyInstruction::Add => 0,
            MyInstruction::Initialize => 1,
        }
    }

    /// The kind with the tag `number`, if there is one.
    pub fn try_from_primitive(number: u8) -> (kind: Option<MyInstruction>)
        ensures
            kind == Self::spec_try_from_primitive(number),
    {
        if number == 0 {
            Some(MyInstruction::Add)
        } else if number == 1 {
            Some(MyInstruction::Initialize)
        } else {
            None
        }
    }

    /// A tag names one kind, and every kind is found again by its tag.
    pub proof fn lemma_tags(kind: MyInstruction, number: u8)
        ensures
            Self::spec_try_from_primitive(kind.spec_tag()) == Some(kind),
            Self::spec_try_from_primitive(number) == Some(kind) <==> number == kind.spec_tag(),
    {
    }
}

/// The payload that holds one `u64`, if `bytes` is one.
pub open spec fn spec_u64_payload(bytes: Seq<u8>) -> Option<u64> {
    if bytes.len() == 8 {
        Some(spec_u64_from_le_bytes(bytes))
    } else {
        None
    }
}

/// The array that holds the eight bytes of `bytes`.
pub open spec fn spec_bytes8(bytes: Seq<u8>) -> [u8; 8] {
    choose|array: [u8; 8]| array@ == bytes
}

/// Every eight bytes are the content of an array.
pub proof fn lemma_bytes8(bytes: Seq<u8>)
    requires
        bytes.len() == 8,
    ensures
        spec_bytes8(bytes)@ == bytes,
{
    let a0 = spec_array_fill_for_copy_type::<u8, 8>(0u8);
    let a1 = spec_array_update(a0, 0, bytes[0]);
    let a2 = spec_array_update(a1, 1, bytes[1]);
    let a3 = spec_array_update(a2, 2, bytes[2]);
    let a4 = spec_array_update(a3, 3, bytes[3]);
    let a5 = spec_array_update(a4, 4, bytes[4]);
    let a6 = spec_array_update(a5, 5, bytes[5]);
    let a7 = spec_array_update(a6, 6, bytes[6]);
    let a8 = spec_array_update(a7, 7, bytes[7]);
    assert(a8@ =~= bytes);
}

/// An account that counts.
#[derive(Clone, Copy, Debug, PartialEq, Eq, Structural)]
pub struct Counter {
    /// The count.
    pub value: u64,
}

impl Discriminator for Counter {
    open spec fn spec_discriminator() -> u8 {
        MyAccount::Counter.spec_tag()
    }

    fn discriminator() -> (tag: u8) {
        MyAccount::Counter.tag()
    }
}

impl Payload for Counter {
    open spec fn spec_encode(&self) -> Seq<u8> {
        spec_u64_to_le_bytes(self.value)
    }

    open spec fn spec_decode(bytes: Seq<u8>) -> Option<Self> {
        match spec_u64_payload(bytes) {
            Some(value) => Some(Counter { value }),
            None => None,
        }
    }

    proof fn lemma_decode_encode(&self) {
        lemma_auto_spec_u64_to_from_le_bytes();
    }

    proof fn lemma_encode_decode(bytes: Seq<u8>) {
        lemma_auto_spec_u64_to_from_le_bytes();
    }

    fn encode(&self) -> (bytes: Vec<u8>) {
        borsh_u64_to_vec(self.value)
    }

    fn decode(bytes: &[u8]) -> (record: Option<Self>) {
        match borsh_u64_from_slice(bytes) {
            Some(value) => Some(Counter { value }),
            None => None,
        }
    }
}

impl FixedLayout for Counter {
    open spec fn spec_size() -> nat {
        8
    }

    proof fn lemma_size(bytes: Seq<u8>) {
    }

    fn size() -> (n: usize) {
        8
    }
}

impl Counter {
    /// The tag of the record and then its eight bytes.
    pub fn to_bytes(&self) -> (bytes: Vec<u8>)
        ensures
            bytes@ == spec_to_bytes(self),
    {
        to_bytes(self)
    }
}

/// An account that names its holder.
#[derive(Clone, Copy, Debug, PartialEq, Eq, Structural)]
pub struct Profile {
    /// The holder's number.
    pub id: u64,
}

impl Discriminator for Profile {
    open spec fn spec_discriminator() -> u8 {
        MyAccount::Profile.spec_tag()
    }

    fn discriminator() -> (tag: u8) {
        MyAccount::Profile.tag()
    }
}

impl Payload for Profile {
    open spec fn spec_encode(&self) -> Seq<u8> {
        spec_u64_to_le_bytes(self.id)
    }

    open spec fn spec_decode(bytes: Seq<u8>) -> Option<Self> {
        match spec_u64_payload(bytes) {
            Some(id) => Some(Profile { id }),
            None => None,
        }
    }

    proof fn lemma_decode_encode(&self) {
        lemma_auto_spec_u64_to_from_le_bytes();
    }

    proof fn lemma_encode_decode(bytes: Seq<u8>) {
        lemma_auto_spec_u64_to_from_le_bytes();
    }

    fn encode(&self) -> (bytes: Vec<u8>) {
        borsh_u64_to_vec(self.id)
    }

    fn decode(bytes: &[u8]) -> (record: Option<Self>) {
        match borsh_u64_from_slice(bytes) {
            Some(id) => Some(Profile { id }),
            None => None,
        }
    }
}

impl FixedLayout for Profile {
    open spec fn spec_size() -> nat {
        8
    }

    proof fn lemma_size(bytes: Seq<u8>) {
    }

    fn size() -> (n: usize) {
        8
    }
}

impl Profile {
    /// The tag of the record and then its eight bytes.
    pub fn to_bytes(&self) -> (bytes: Vec<u8>)
        ensures
            bytes@ == spec_to_bytes(self),
    {
        to_bytes(self)
    }
}

/// The instruction that adds to a counter.
#[derive(Clone, Copy, Debug, PartialEq, Eq)]
pub struct Add {
    /// The amount, as the eight bytes of a number.
    pub value: [u8; 8],
}

impl Discriminator for Add {
    open spec fn spec_discriminator() -> u8 {
        MyInstruction::Add.spec_tag()
    }

    fn discriminator() -> (tag: u8) {
        MyInstruction::Add.tag()
    }
}

impl Payload for Add {
    open spec fn spec_encode(&self) -> Seq<u8> {
        self.value@
    }

    open spec fn spec_decode(bytes: Seq<u8>) -> Option<Self> {
        if bytes.len() == 8 {
            Some(Add { value: spec_bytes8(bytes) })
        } else {
            None
        }
    }

    proof fn lemma_decode_encode(&self) {
        lemma_bytes8(self.value@);
        assert(spec_bytes8(self.value@) =~= self.value);
    }

    proof fn lemma_encode_decode(bytes: Seq<u8>) {
        if bytes.len() == 8 {
            lemma_bytes8(bytes);
        }
    }

    fn encode(&self) -> (bytes: Vec<u8>) {
        borsh_bytes8_to_vec(&self.value)
    }

    fn decode(bytes: &[u8]) -> (record: Option<Self>) {
        match borsh_bytes8_from_slice(bytes) {
            Some(value) => {
                proof {
                    lemma_bytes8(bytes@);
                    assert(spec_bytes8(bytes@) =~= value);
                }
                Some(Add { value })
            },
            None => None,
        }
    }
}

impl Add {
    /// Reads the instruction from its tag and its eight bytes.
    pub fn try_from_bytes(data: &[u8]) -> (r: Result<Self, ProgramError>)
        ensures
            r == spec_read_tagged::<Add>(TagSpace::Instruction, data@),
    {
        read_tagged(TagSpace::Instruction, data)
    }

    /// The tag of the instruction and then its eight bytes.
    pub fn to_bytes(&self) -> (bytes: Vec<u8>)
        ensures
            bytes@ == spec_to_bytes(self),
    {
        to_bytes(self)
    }
}

/// The instruction that sets a counter up. It carries nothing.
#[derive(Clone, Copy, Debug, PartialEq, Eq, Structural)]
pub struct Initialize {}

impl Discriminator for Initialize {
    open spec fn spec_discriminator() -> u8 {
        MyInstruction::Initialize.spec_tag()
    }

    fn discriminator() -> (tag: u8) {
        MyInstruction::Initialize.tag()
    }
}

impl Payload for Initialize {
    open spec fn spec_encode(&self) -> Seq<u8> {
        Seq::empty()
    }

    open spec fn spec_decode(bytes: Seq<u8>) -> Option<Self> {
        if bytes.len() == 0 {
            Some(Initialize {  })
        } else {
            None
        }
    }

    proof fn lemma_decode_encode(&self) {
    }

    proof fn lemma_encode_decode(bytes: Seq<u8>) {
        if bytes.len() == 0 {
            assert(bytes =~= Seq::<u8>::empty());
        }
    }

    fn encode(&self) -> (bytes: Vec<u8>) {
        Vec::new()
    }

    fn decode(bytes: &[u8]) -> (record: Option<Self>) {
        if bytes.len() == 0 {
            Some(Initialize {  })
        } else {
            None
        }
    }
}

impl Initialize {
    /// Reads the instruction from its tag, after which nothing may follow.
    pub fn try_from_bytes(data: &[u8]) -> (r: Result<Self, ProgramError>)
        ensures
            r == spec_read_tagged::<Initialize>(TagSpace::Instruction, data@),
    {
        read_tagged(TagSpace::Instruction, data)
    }

    /// The tag of the instruction alone.
    pub fn to_bytes(&self) -> (bytes: Vec<u8>)
        ensures
            bytes@ == spec_to_bytes(self),
    {
        to_bytes(self)
    }
}

/// What the sample program reports of a counter.
#[derive(Clone, Copy, Debug, PartialEq, Eq, Structural)]
pub struct MyEvent {
    /// The count that is reported.
    pub value: u64,
}

impl Discriminator for MyEvent {
    open spec fn spec_discriminator() -> u8 {
        0
    }

    fn discriminator() -> (tag: u8) {
        0
    }
}

impl Payload for MyEvent {
    open spec fn spec_encode(&self) -> Seq<u8> {
        spec_u64_to_le_bytes(self.value)
    }

    open spec fn spec_decode(bytes: Seq<u8>) -> Option<Self> {
        match spec_u64_payload(bytes) {
            Some(value) => Some(MyEvent { value }),
            None => None,
        }
    }

    proof fn lemma_decode_encode(&self) {
        lemma_auto_spec_u64_to_from_le_bytes();
    }

    proof fn lemma_encode_decode(bytes: Seq<u8>) {
        lemma_auto_spec_u64_to_from_le_bytes();
    }

    fn encode(&self) -> (bytes: Vec<u8>) {
        borsh_u64_to_vec(self.value)
    }

    fn decode(bytes: &[u8]) -> (record: Option<Self>) {
        match borsh_u64_from_slice(bytes) {
            Some(value) => Some(MyEvent { value }),
            None => None,
        }
    }
}

impl MyEvent {
    /// Reads the event from its tag and its eight bytes.
    pub fn try_from_bytes(data: &[u8]) -> (r: Result<Self, ProgramError>)
        ensures
            r == spec_read_tagged::<MyEvent>(TagSpace::Instruction, data@),
    {
        read_tagged(TagSpace::Instruction, data)
    }

    /// The tag of the event and then its eight bytes.
    pub fn to_bytes(&self) -> (bytes: Vec<u8>)
        ensures
            bytes@ == spec_to_bytes(self),
    {
        to_bytes(self)
    }
}

/// A record that is reported to the outside: in the log, or as the result
/// that the program hands back. Either way what is emitted is one blob, the
/// record's tag and its payload.
pub trait Loggable {
    /// The blob that goes into the log.
    fn log(&self) -> Vec<u8>;

    /// The blob that is handed back as the program's result.
    fn log_return(&self) -> Vec<u8>;
}

impl Loggable for MyEvent {
    fn log(&self) -> (blob: Vec<u8>)
        ensures
            blob@ == spec_to_bytes(self),
    {
        self.to_bytes()
    }

    fn log_return(&self) -> (blob: Vec<u8>)
        ensures
            blob@ == spec_to_bytes(self),
    {
        self.to_bytes()
    }
}

} // verus!
