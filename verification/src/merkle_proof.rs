//! Membership proofs: the path of sibling digests from a leaf to the root.

use vstd::prelude::*;
use crate::hasher::{Encodable, MerkleHasher};

verus! {

/// The side on which a sibling digest lies, seen from the node that is being
/// proven.
#[derive(Debug, Clone, Copy, PartialEq, Eq, Structural)]
pub enum Side {
    Left,
    Right,
}

/// The parent digest of `acc` and a `sibling` that lies on `side` of it.
pub open spec fn climb<H: MerkleHasher>(acc: H::Digest, sibling: H::Digest, side: Side) -> H::Digest {
    match side {
        Side::Left => H::node_digest(sibling, acc),
        Side::Right => H::node_digest(acc, sibling),
    }
}

/// The digest reached from `acc` by climbing along `path`, bottom to top.
pub open spec fn recompute<H: MerkleHasher>(acc: H::Digest, path: Seq<(H::Digest, Side)>) -> H::Digest
    decreases path.len(),
{
    if path.len() == 0 {
        acc
    } else {
        recompute::<H>(climb::<H>(acc, path[0].0, path[0].1), path.drop_first())
    }
}

/// A Merkle proof of inclusion for a single array element. It holds copies of
/// all it needs, and can be checked without the tree it came from.
#[derive(Debug, Clone, PartialEq, Eq)]
pub struct MerkleProof<H: MerkleHasher> {
    /// Position of the element in the array, from 0.
    pub index: usize,
    /// Sibling digests with their sides, from the leaf towards the root.
    pub siblings: Vec<(H::Digest, Side)>,
    /// The root that the path is expected to reach.
    pub root: H::Digest,
    /// The digest of the proven leaf.
    pub leaf: H::Digest,
}

impl<H: MerkleHasher> MerkleProof<H> {
    /// The path, recomputed from the leaf, reaches the recorded root.
    pub open spec fn valid(&self) -> bool {
        recompute::<H>(self.leaf, self.siblings@) == self.root
    }

    /// Recomputes the path from the leaf and compares the result with the
    /// recorded root.
    pub fn verify(&self) -> (ok: bool)
        ensures
            ok == self.valid(),
    {
        let mut acc = self.leaf;
        let n = self.siblings.len();
        let mut k: usize = 0;
        assert(self.siblings@.skip(0) =~= self.siblings@);
        while k < n
            invariant
                n == self.siblings@.len(),
                k <= n,
                recompute::<H>(acc, self.siblings@.skip(k as int)) == recompute::<H>(
                    self.leaf,
                    self.siblings@,
                ),
            decreases n - k,
        {
            let ghost rest = self.siblings@.skip(k as int);
            assert(rest.drop_first() =~= self.siblings@.skip(k + 1));
            let (sib, side) = self.siblings[k];
            acc =
            match side {
                Side::Left => H::node(&sib, &acc),
                Side::Right => H::node(&acc, &sib),
            };
            k += 1;
        }
        H::same_digest(&acc, &self.root)
    }

    /// The root that this proof commits to.
    pub fn get_merkle_root(&self) -> (root: H::Digest)
        ensures
            root == self.root,
    {
        self.root
    }

    /// The digest of the proven leaf.
    pub fn get_leaf(&self) -> (leaf: H::Digest)
        ensures
            leaf == self.leaf,
    {
        self.leaf
    }
}

/// Checks that `proof` is valid and that it is a proof for `value`: the leaf
/// it records is the digest of `value`.
pub fn verify_value_with_proof<T: Encodable, H: MerkleHasher>(value: &T, proof: &MerkleProof<H>) -> (ok:
    bool)
    ensures
        ok == (H::leaf_digest(value.encoding()) == proof.leaf && proof.valid()),
{
    let digest = H::leaf(value);
    H::same_digest(&digest, &proof.leaf) && proof.verify()
}

} // verus!
