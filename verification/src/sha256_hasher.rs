//! The byte-oriented hasher: SHA-256 over tagged bytes.

use vstd::prelude::*;
use crate::bytes::bytes32_eq;
use crate::hasher::{Encodable, MerkleHasher};

verus! {

/// Tag that starts the input of every leaf hash.
pub const LEAF_TAG: u8 = 0x00;

/// Tag that starts the input of every node hash.
pub const NODE_TAG: u8 = 0x01;

/// The SHA-256 digest of `data`.
pub uninterp spec fn sha256_of(data: Seq<u8>) -> [u8; 32];

/// `Sha256::digest` of the sha2 crate: the SHA-256 digest of `data`, a
/// function of the bytes alone.
#[verifier::external_body]
fn sha256(data: &[u8]) -> (digest: [u8; 32])
    ensures
        digest == sha256_of(data@),
{
    let out = <sha2::Sha256 as sha2::Digest>::digest(data);
    out.into()
}

/// The input of a leaf hash: the leaf tag, then the item's encoding.
pub open spec fn leaf_input(encoding: Seq<u8>) -> Seq<u8> {
    seq![LEAF_TAG] + encoding
}

/// The input of a node hash: the node tag, then the left and the right digest.
pub open spec fn node_input(left: [u8; 32], right: [u8; 32]) -> Seq<u8> {
    seq![NODE_TAG] + left@ + right@
}

/// Hashes leaves and nodes with SHA-256, each under its own tag.
#[derive(Debug, Clone, Copy, Default)]
pub struct Sha256Hasher;

impl MerkleHasher for Sha256Hasher {
    type Digest = [u8; 32];

    open spec fn leaf_digest(encoding: Seq<u8>) -> [u8; 32] {
        sha256_of(leaf_input(encoding))
    }

    open spec fn node_digest(left: [u8; 32], right: [u8; 32]) -> [u8; 32] {
        sha256_of(node_input(left, right))
    }

    fn leaf<T: Encodable>(item: &T) -> (digest: [u8; 32]) {
        let enc = item.encode();
        let mut buf: Vec<u8> = Vec::new();
        buf.push(LEAF_TAG);
        buf.extend_from_slice(enc.as_slice());
        assert(buf@ =~= leaf_input(item.encoding()));
        sha256(buf.as_slice())
    }

    fn node(left: &[u8; 32], right: &[u8; 32]) -> (digest: [u8; 32]) {
        let mut buf: Vec<u8> = Vec::new();
        buf.push(NODE_TAG);
        buf.extend_from_slice(left.as_slice());
        buf.extend_from_slice(right.as_slice());
        assert(buf@ =~= node_input(*left, *right));
        sha256(buf.as_slice())
    }

    fn same_digest(a: &[u8; 32], b: &[u8; 32]) -> (same: bool) {
        bytes32_eq(a, b)
    }
}

} // verus!
