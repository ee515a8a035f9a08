//! The field-native hasher: leaves and nodes are folded through the MiMC
//! round function over the BN254 scalar field, and digests are the 32
//! little-endian bytes of the resulting field element.

use vstd::prelude::*;
use vstd::slice::slice_subrange;
use crate::array::StaticMerkleArray;
use crate::bytes::{
    bytes32_eq, le_bytes, le_value, lemma_le_bytes_value, lemma_le_value_injective, radix,
};
use crate::field::{modulus, FieldElement};
use crate::hasher::{Encodable, MerkleHasher};
use crate::mimc::{mimc_hash_2, mimc_value};

verus! {

/// A rule of a grammar in binary form: a parent symbol and its two children,
/// each a flag and a number.
#[derive(Clone, Copy, Debug, PartialEq, Eq)]
pub struct ProductionRule {
    pub parent: (bool, u64),
    pub left_child: (bool, u64),
    pub right_child: (bool, u64),
}

/// The field element that starts every leaf hash.
pub const LEAF_DOMAIN: u64 = 0xA5;

/// The field element that starts every node hash.
pub const NODE_DOMAIN: u64 = 0x5A;

/// The number of bytes of a block of the generic leaf encoding.
pub const BLOCK_BYTES: usize = 32;

/// The byte of a flag.
pub open spec fn flag_byte(flag: bool) -> u8 {
    if flag {
        1
    } else {
        0
    }
}

/// The encoding of a flag and a number: one byte, then the eight bytes of
/// the number, least significant first.
pub open spec fn pair_encoding(pair: (bool, u64)) -> Seq<u8> {
    seq![flag_byte(pair.0)] + le_bytes(pair.1 as nat, 8)
}

/// The canonical encoding of a rule: parent, left child, right child.
pub open spec fn rule_encoding(rule: ProductionRule) -> Seq<u8> {
    pair_encoding(rule.parent) + pair_encoding(rule.left_child) + pair_encoding(rule.right_child)
}

/// The flag and the number that stand at `at` in `bytes`.
pub open spec fn decode_pair(bytes: Seq<u8>, at: int) -> (bool, u64) {
    (bytes[at] == 1, le_value(bytes.subrange(at + 1, at + 9)) as u64)
}

/// The rule that `bytes` start with, if they start with one: 27 bytes at
/// least, with 0 or 1 in each flag's place. What follows the rule is ignored.
pub open spec fn decode_rule(bytes: Seq<u8>) -> Option<ProductionRule> {
    if bytes.len() >= 27 && bytes[0] <= 1 && bytes[9] <= 1 && bytes[18] <= 1 {
        Some(
            ProductionRule {
                parent: decode_pair(bytes, 0),
                left_child: decode_pair(bytes, 9),
                right_child: decode_pair(bytes, 18),
            },
        )
    } else {
        None
    }
}

/// The encoding of a rule decodes to the rule, so a leaf that is a rule
/// absorbs the six numbers of the rule.
pub proof fn lemma_rule_roundtrip(rule: ProductionRule)
    ensures
        rule_encoding(rule).len() == 27,
        decode_rule(rule_encoding(rule)) == Some(rule),
        leaf_values(rule_encoding(rule)) == rule_values(rule),
{
    let bytes = rule_encoding(rule);
    lemma_le_bytes_value(rule.parent.1 as nat, 8);
    lemma_le_bytes_value(rule.left_child.1 as nat, 8);
    lemma_le_bytes_value(rule.right_child.1 as nat, 8);
    assert(radix(8) == 0x1_0000_0000_0000_0000) by {
        reveal_with_fuel(radix, 9);
    }
    assert(bytes.subrange(1, 9) =~= le_bytes(rule.parent.1 as nat, 8));
    assert(bytes.subrange(10, 18) =~= le_bytes(rule.left_child.1 as nat, 8));
    assert(bytes.subrange(19, 27) =~= le_bytes(rule.right_child.1 as nat, 8));
    assert(bytes[0] == flag_byte(rule.parent.0));
    assert(bytes[9] == flag_byte(rule.left_child.0));
    assert(bytes[18] == flag_byte(rule.right_child.0));
    assert(decode_pair(bytes, 0) == rule.parent);
    assert(decode_pair(bytes, 9) == rule.left_child);
    assert(decode_pair(bytes, 18) == rule.right_child);
}

/// `bincode::serialize` on the three pairs of a rule. With the default
/// options bincode writes the fields in order with nothing between them, a
/// `bool` as one byte 0 or 1, a `u64` as eight bytes, least significant
/// first.
#[verifier::external_body]
fn serialize_rule(rule: &ProductionRule) -> (bytes: Vec<u8>)
    ensures
        bytes@ == rule_encoding(*rule),
{
    bincode::serialize(&(rule.parent, rule.left_child, rule.right_child)).unwrap()
}

/// `bincode::deserialize` into the three pairs of a rule. It reads the 27
/// bytes of the fields from the front, fails where the bytes end before
/// that or a flag's byte is neither 0 nor 1, and leaves bytes that follow
/// unread.
#[verifier::external_body]
fn deserialize_rule(bytes: &[u8]) -> (rule: Option<ProductionRule>)
    ensures
        rule == decode_rule(bytes@),
{
    match bincode::deserialize::<((bool, u64), (bool, u64), (bool, u64))>(bytes) {
        Ok((parent, left_child, right_child)) => Some(
            ProductionRule { parent, left_child, right_child },
        ),
        Err(_) => None,
    }
}

impl Encodable for ProductionRule {
    open spec fn encoding(&self) -> Seq<u8> {
        rule_encoding(*self)
    }

    fn encode(&self) -> (bytes: Vec<u8>) {
        serialize_rule(self)
    }
}

/// The numbers of a sequence of field elements.
pub open spec fn values_of(parts: Seq<FieldElement>) -> Seq<nat> {
    Seq::new(parts.len(), |i: int| parts[i].value())
}

/// The state `h` after absorbing `parts` one by one, each by one hash of the
/// state with the part.
pub open spec fn fold_values(h: nat, parts: Seq<nat>) -> nat
    decreases parts.len(),
{
    if parts.len() == 0 {
        h
    } else {
        mimc_value(fold_values(h, parts.drop_last()), parts.last())
    }
}

/// The number of a flag.
pub open spec fn flag_value(flag: bool) -> nat {
    if flag {
        1
    } else {
        0
    }
}

/// The six numbers of a rule: flag and number of the parent, of the left
/// child and of the right child.
pub open spec fn rule_values(rule: ProductionRule) -> Seq<nat> {
    seq![
        flag_value(rule.parent.0),
        rule.parent.1 as nat,
        flag_value(rule.left_child.0),
        rule.left_child.1 as nat,
        flag_value(rule.right_child.0),
        rule.right_child.1 as nat,
    ]
}

/// The number of blocks of an encoding of `len` bytes.
pub open spec fn block_count(len: nat) -> nat {
    (len + 31) / 32
}

/// The `k`-th block of `bytes`: 32 bytes, or what is left of them.
pub open spec fn block(bytes: Seq<u8>, k: int) -> Seq<u8> {
    bytes.subrange(32 * k, if 32 * k + 32 <= bytes.len() {
        32 * k + 32
    } else {
        bytes.len() as int
    })
}

/// The numbers of the blocks of `bytes`: each block read with the least
/// significant byte first and reduced modulo the field order.
pub open spec fn block_values(bytes: Seq<u8>) -> Seq<nat> {
    Seq::new(block_count(bytes.len()), |k: int| le_value(block(bytes, k)) % modulus())
}

/// The numbers that a leaf absorbs: those of the rule where the encoding
/// starts with one, else those of the encoding's blocks.
pub open spec fn leaf_values(encoding: Seq<u8>) -> Seq<nat> {
    match decode_rule(encoding) {
        Some(rule) => rule_values(rule),
        None => block_values(encoding),
    }
}

/// The digest of a field element: its canonical number as 32 bytes, least
/// significant first.
pub open spec fn digest_of_value(value: nat) -> [u8; 32] {
    choose|digest: [u8; 32]| le_value(digest@) == value
}

/// A 32-byte array is the digest of the number that it spells.
pub proof fn lemma_digest_of_value(digest: [u8; 32])
    ensures
        digest_of_value(le_value(digest@)) == digest,
{
    let chosen = digest_of_value(le_value(digest@));
    assert(le_value(chosen@) == le_value(digest@));
    lemma_le_value_injective(chosen@, digest@);
    assert(chosen =~= digest);
}

fn b2f(b: bool) -> (x: FieldElement)
    ensures
        x.value() == flag_value(b),
{
    if b {
        FieldElement::from_u64(1u64)
    } else {
        FieldElement::from_u64(0u64)
    }
}

fn u2f(x: u64) -> (y: FieldElement)
    ensures
        y.value() == x,
{
    FieldElement::from_u64(x)
}

fn fr_to_bytes32(x: FieldElement) -> (digest: [u8; 32])
    ensures
        digest == digest_of_value(x.value()),
{
    let digest = x.to_bytes_le();
    proof {
        lemma_digest_of_value(digest);
    }
    digest
}

fn bytes32_to_fr(b: &[u8; 32]) -> (x: FieldElement)
    ensures
        x.value() == le_value(b@) % modulus(),
{
    FieldElement::from_le_bytes_mod_order(b.as_slice())
}

/// Absorbs `parts` into `domain`, one hash of the round function for each.
fn hash_frs(domain: FieldElement, parts: &[FieldElement]) -> (h: FieldElement)
    ensures
        h.value() == fold_values(domain.value(), values_of(parts@)),
{
    let ghost all = values_of(parts@);
    let n = parts.len();
    let mut h = domain;
    let mut k: usize = 0;
    while k < n
        invariant
            n == parts@.len(),
            all == values_of(parts@),
            k <= n,
            h.value() == fold_values(domain.value(), all.take(k as int)),
        decreases n - k,
    {
        assert(all.take(k + 1).drop_last() =~= all.take(k as int));
        assert(all.take(k + 1).last() == parts@[k as int].value());
        h = mimc_hash_2(h, parts[k]);
        k += 1;
    }
    assert(all.take(n as int) =~= all);
    h
}

/// The six field elements of a rule.
fn rule_to_frs(r: &ProductionRule) -> (parts: [FieldElement; 6])
    ensures
        values_of(parts@) == rule_values(*r),
{
    let parts = [
        b2f(r.parent.0),
        u2f(r.parent.1),
        b2f(r.left_child.0),
        u2f(r.left_child.1),
        b2f(r.right_child.0),
        u2f(r.right_child.1),
    ];
    assert(values_of(parts@) =~= rule_values(*r));
    parts
}

/// The field elements of the blocks of `buf`.
fn blocks_to_frs(buf: &[u8]) -> (parts: Vec<FieldElement>)
    ensures
        values_of(parts@) == block_values(buf@),
{
    let len = buf.len();
    let count = len / BLOCK_BYTES + if len % BLOCK_BYTES == 0 {
        0
    } else {
        1
    };
    let mut parts: Vec<FieldElement> = Vec::with_capacity(count);
    let mut k: usize = 0;
    while k < count
        invariant
            len == buf@.len(),
            count == block_count(len as nat),
            k <= count,
            parts@.len() == k,
            forall|j: int|
                0 <= j < k ==> (#[trigger] parts@[j]).value() == le_value(block(buf@, j))
                    % modulus(),
        decreases count - k,
    {
        let start = BLOCK_BYTES * k;
        let end = if len - start >= BLOCK_BYTES {
            start + BLOCK_BYTES
        } else {
            len
        };
        let chunk = slice_subrange(buf, start, end);
        assert(chunk@ == block(buf@, k as int));
        parts.push(FieldElement::from_le_bytes_mod_order(chunk));
        k += 1;
    }
    assert(values_of(parts@) =~= block_values(buf@));
    parts
}

/// Hashes over the BN254 scalar field. A leaf absorbs the six numbers of a
/// rule where the item's encoding starts with one, and the blocks of the
/// encoding otherwise; a node absorbs its two children.
#[derive(Clone, Copy, Debug, Default)]
pub struct MiMCBn254RuleHasher;

impl MerkleHasher for MiMCBn254RuleHasher {
    type Digest = [u8; 32];

    open spec fn leaf_digest(encoding: Seq<u8>) -> [u8; 32] {
        digest_of_value(fold_values(LEAF_DOMAIN as nat, leaf_values(encoding)))
    }

    open spec fn node_digest(left: [u8; 32], right: [u8; 32]) -> [u8; 32] {
        digest_of_value(
            fold_values(
                NODE_DOMAIN as nat,
                seq![le_value(left@) % modulus(), le_value(right@) % modulus()],
            ),
        )
    }

    fn leaf<T: Encodable>(item: &T) -> (digest: [u8; 32]) {
        let buf = item.encode();
        match deserialize_rule(buf.as_slice()) {
            Some(rule) => {
                let parts = rule_to_frs(&rule);
                let fr = hash_frs(FieldElement::from_u64(LEAF_DOMAIN), parts.as_slice());
                fr_to_bytes32(fr)
            },
            None => {
                let parts = blocks_to_frs(buf.as_slice());
                let fr = hash_frs(FieldElement::from_u64(LEAF_DOMAIN), parts.as_slice());
                fr_to_bytes32(fr)
            },
        }
    }

    fn node(left: &[u8; 32], right: &[u8; 32]) -> (digest: [u8; 32]) {
        let l = bytes32_to_fr(left);
        let r = bytes32_to_fr(right);
        let parts = [l, r];
        assert(values_of(parts@) =~= seq![
            le_value(left@) % modulus(),
            le_value(right@) % modulus(),
        ]);
        let fr = hash_frs(FieldElement::from_u64(NODE_DOMAIN), parts.as_slice());
        fr_to_bytes32(fr)
    }

    fn same_digest(a: &[u8; 32], b: &[u8; 32]) -> (same: bool) {
        bytes32_eq(a, b)
    }
}

/// The tree over rules, hashed in the field.
pub type RuleMerkle = StaticMerkleArray<ProductionRule, MiMCBn254RuleHasher>;

} // verus!
