//! The hash contract of the engine, and the canonical byte encoding of items.

use vstd::prelude::*;

verus! {

/// A value with a canonical byte encoding. Leaf digests are taken over this
/// encoding, so two values with the same encoding are the same item to a tree.
pub trait Encodable {
    /// The canonical encoding of the value.
    spec fn encoding(&self) -> Seq<u8>;

    /// Writes the canonical encoding out.
    fn encode(&self) -> (bytes: Vec<u8>)
        ensures
            bytes@ == self.encoding(),
    ;
}

/// How a tree hashes: one rule for leaves and one, order-sensitive, for inner
/// nodes. Both are functions of their arguments alone.
pub trait MerkleHasher {
    /// The digest of a leaf or of an inner node.
    type Digest: Copy;

    /// The digest of a leaf, given the canonical encoding of its item.
    spec fn leaf_digest(encoding: Seq<u8>) -> Self::Digest;

    /// The digest of the parent of `left` and `right`.
    spec fn node_digest(left: Self::Digest, right: Self::Digest) -> Self::Digest;

    /// Hashes a leaf value.
    fn leaf<T: Encodable>(item: &T) -> (digest: Self::Digest)
        ensures
            digest == Self::leaf_digest(item.encoding()),
    ;

    /// Hashes an inner node from the digests of its left and right child.
    fn node(left: &Self::Digest, right: &Self::Digest) -> (digest: Self::Digest)
        ensures
            digest == Self::node_digest(*left, *right),
    ;

    /// Tells whether two digests are the same.
    fn same_digest(a: &Self::Digest, b: &Self::Digest) -> (same: bool)
        ensures
            same == (*a == *b),
    ;
}

} // verus!
