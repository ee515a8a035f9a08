//! The canonical encoding of the plain item types: fixed-width integers,
//! least significant byte first. An item of any other type enters a tree by
//! its encoding, as an [`Encoded`].

use vstd::prelude::*;
use crate::bytes::le_bytes;
use crate::hasher::Encodable;

verus! {

/// The number below 2^32 that stands for `value` in two's complement.
pub open spec fn twos_complement_32(value: i32) -> nat {
    if value >= 0 {
        value as nat
    } else {
        (value + 0x1_0000_0000) as nat
    }
}

/// `bincode::serialize` on a `u32`. With the default options bincode writes
/// an integer at its full width, least significant byte first: four bytes.
#[verifier::external_body]
fn serialize_u32(value: u32) -> (bytes: Vec<u8>)
    ensures
        bytes@ == le_bytes(value as nat, 4),
{
    bincode::serialize(&value).unwrap()
}

/// `bincode::serialize` on an `i32`. With the default options bincode writes
/// an integer at its full width, least significant byte first, a negative
/// one in two's complement: four bytes.
#[verifier::external_body]
fn serialize_i32(value: i32) -> (bytes: Vec<u8>)
    ensures
        bytes@ == le_bytes(twos_complement_32(value), 4),
{
    bincode::serialize(&value).unwrap()
}

/// `bincode::serialize` on a `u64`. With the default options bincode writes
/// an integer at its full width, least significant byte first: eight bytes.
#[verifier::external_body]
fn serialize_u64(value: u64) -> (bytes: Vec<u8>)
    ensures
        bytes@ == le_bytes(value as nat, 8),
{
    bincode::serialize(&value).unwrap()
}

impl Encodable for u32 {
    open spec fn encoding(&self) -> Seq<u8> {
        le_bytes(*self as nat, 4)
    }

    fn encode(&self) -> (bytes: Vec<u8>) {
        serialize_u32(*self)
    }
}

impl Encodable for i32 {
    open spec fn encoding(&self) -> Seq<u8> {
        le_bytes(twos_complement_32(*self), 4)
    }

    fn encode(&self) -> (bytes: Vec<u8>) {
        serialize_i32(*self)
    }
}

impl Encodable for u64 {
    open spec fn encoding(&self) -> Seq<u8> {
        le_bytes(*self as nat, 8)
    }

    fn encode(&self) -> (bytes: Vec<u8>) {
        serialize_u64(*self)
    }
}

/// An item that is given by its canonical encoding.
#[derive(Debug, Clone, PartialEq, Eq)]
pub struct Encoded {
    pub bytes: Vec<u8>,
}

impl Encodable for Encoded {
    open spec fn encoding(&self) -> Seq<u8> {
        self.bytes@
    }

    fn encode(&self) -> (bytes: Vec<u8>) {
        let bytes = self.bytes.clone();
        assert(bytes@ =~= self.bytes@);
        bytes
    }
}

} // verus!
