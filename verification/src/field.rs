//! The scalar field of BN254. A field element is held as its canonical
//! number, 32 bytes with the least significant first; the arithmetic itself
//! is done by ark-ff.

use vstd::prelude::*;
use vstd::arithmetic::power::pow;
use ark_ff::{BigInteger, Field, PrimeField};
use crate::bytes::{be_value, le_value};

verus! {

/// The order of the field.
pub open spec fn modulus() -> nat {
    21888242871839275222246405745257275088548364400416034343698204186575808495617nat
}

/// `Fr::from_le_bytes_mod_order` of ark-ff, on bytes of any length: the
/// number that the bytes spell, least significant first, reduced modulo the
/// field order. The result is the canonical number of the element, as
/// `into_bigint` gives it.
#[verifier::external_body]
fn fr_from_le_bytes(bytes: &[u8]) -> (out: [u8; 32])
    ensures
        le_value(out@) == le_value(bytes@) % modulus(),
{
    let x = ark_bn254::Fr::from_le_bytes_mod_order(bytes);
    let mut out = [0u8; 32];
    out.copy_from_slice(&x.into_bigint().to_bytes_le());
    out
}

/// `Fr::from_be_bytes_mod_order` of ark-ff, on bytes of any length: the
/// number that the bytes spell, most significant first, reduced modulo the
/// field order.
#[verifier::external_body]
fn fr_from_be_bytes(bytes: &[u8]) -> (out: [u8; 32])
    ensures
        le_value(out@) == be_value(bytes@) % modulus(),
{
    let x = ark_bn254::Fr::from_be_bytes_mod_order(bytes);
    let mut out = [0u8; 32];
    out.copy_from_slice(&x.into_bigint().to_bytes_le());
    out
}

/// `Fr::from(u64)` of ark-ff: the element of that number, which is below the
/// field order.
#[verifier::external_body]
fn fr_from_u64(value: u64) -> (out: [u8; 32])
    ensures
        le_value(out@) == value,
{
    let x = ark_bn254::Fr::from(value);
    let mut out = [0u8; 32];
    out.copy_from_slice(&x.into_bigint().to_bytes_le());
    out
}

/// Addition in the field, `+` on ark-ff's `Fr`: the sum of the two numbers
/// modulo the field order.
#[verifier::external_body]
fn fr_add(a: &[u8; 32], b: &[u8; 32]) -> (out: [u8; 32])
    ensures
        le_value(out@) == (le_value(a@) + le_value(b@)) % modulus(),
{
    let x = ark_bn254::Fr::from_le_bytes_mod_order(a) + ark_bn254::Fr::from_le_bytes_mod_order(b);
    let mut out = [0u8; 32];
    out.copy_from_slice(&x.into_bigint().to_bytes_le());
    out
}

/// `Field::pow` of ark-ff with a one-limb exponent: the number raised to
/// `exp`, modulo the field order.
#[verifier::external_body]
fn fr_pow(a: &[u8; 32], exp: u64) -> (out: [u8; 32])
    ensures
        le_value(out@) == pow(le_value(a@) as int, exp as nat) % (modulus() as int),
{
    let x = ark_bn254::Fr::from_le_bytes_mod_order(a).pow([exp]);
    let mut out = [0u8; 32];
    out.copy_from_slice(&x.into_bigint().to_bytes_le());
    out
}

/// An element of the scalar field of BN254.
#[derive(Clone, Copy, Debug, PartialEq, Eq)]
pub struct FieldElement {
    bytes: [u8; 32],
}

impl FieldElement {
    /// The canonical number of the element.
    pub closed spec fn value(&self) -> nat {
        le_value(self.bytes@)
    }

    #[verifier::type_invariant]
    spec fn canonical(&self) -> bool {
        self.value() < modulus()
    }

    /// The element of a small number.
    pub fn from_u64(value: u64) -> (x: Self)
        ensures
            x.value() == value,
    {
        FieldElement { bytes: fr_from_u64(value) }
    }

    /// The element of the number that `bytes` spell, least significant byte
    /// first, reduced modulo the field order.
    pub fn from_le_bytes_mod_order(bytes: &[u8]) -> (x: Self)
        ensures
            x.value() == le_value(bytes@) % modulus(),
    {
        FieldElement { bytes: fr_from_le_bytes(bytes) }
    }

    /// The element of the number that `bytes` spell, most significant byte
    /// first, reduced modulo the field order.
    pub fn from_be_bytes_mod_order(bytes: &[u8]) -> (x: Self)
        ensures
            x.value() == be_value(bytes@) % modulus(),
    {
        FieldElement { bytes: fr_from_be_bytes(bytes) }
    }

    /// The sum of two elements.
    pub fn plus(&self, other: &Self) -> (sum: Self)
        ensures
            sum.value() == (self.value() + other.value()) % modulus(),
    {
        FieldElement { bytes: fr_add(&self.bytes, &other.bytes) }
    }

    /// The element raised to the power `exp`.
    pub fn pow(&self, exp: u64) -> (power: Self)
        ensures
            power.value() == pow(self.value() as int, exp as nat) % (modulus() as int),
    {
        FieldElement { bytes: fr_pow(&self.bytes, exp) }
    }

    /// The canonical number of the element as 32 bytes, least significant
    /// first.
    pub fn to_bytes_le(&self) -> (bytes: [u8; 32])
        ensures
            le_value(bytes@) == self.value(),
            self.value() < modulus(),
    {
        proof {
            use_type_invariant(self);
        }
        self.bytes
    }
}

} // verus!
