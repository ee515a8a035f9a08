//! What holds of every tree and every proof, whatever the hasher.

use vstd::prelude::*;
use vstd::arithmetic::power2::{lemma2_to64, lemma_pow2_unfold, pow2};
use crate::array::{is_proof_of, leaf_digests, merkle_root};
use crate::hasher::{Encodable, MerkleHasher};
use crate::merkle_proof::{climb, recompute, MerkleProof, Side};
use crate::tree::{height_of, lemma_path_len, lemma_path_reaches_root};

verus! {

/// The membership proof of any position of a non-empty array is valid, its
/// leaf is the digest of the item at that position, and its path is as long
/// as the tree is high.
pub proof fn lemma_index_proof_verifies<T: Encodable, H: MerkleHasher>(
    proof: MerkleProof<H>,
    items: Seq<T>,
    index: int,
)
    requires
        0 <= index < items.len(),
        is_proof_of(proof, items, index),
    ensures
        proof.valid(),
        proof.leaf == H::leaf_digest(items[index].encoding()),
        proof.siblings@.len() == height_of(items.len()),
{
    let leaves = leaf_digests::<T, H>(items);
    lemma_path_reaches_root::<H>(leaves, index);
    lemma_path_len::<H>(leaves, index);
}

/// The root is a function of the items' encodings: arrays of one length
/// whose items have, position by position, the same encoding have the same
/// root. So has the same array, built twice.
pub proof fn lemma_root_depends_on_encodings<T: Encodable, U: Encodable, H: MerkleHasher>(
    a: Seq<T>,
    b: Seq<U>,
)
    requires
        a.len() == b.len(),
        forall|i: int| 0 <= i < a.len() ==> a[i].encoding() == b[i].encoding(),
    ensures
        merkle_root::<T, H>(a) == merkle_root::<U, H>(b),
{
    assert(leaf_digests::<T, H>(a) =~= leaf_digests::<U, H>(b));
}

/// The height of a tree over `n` leaves is the logarithm of `n` to base 2,
/// rounded up: the least `h` with `n` at most 2 to the `h`.
pub proof fn lemma_height_is_ceil_log2(n: nat)
    requires
        n >= 1,
    ensures
        n <= pow2(height_of(n)),
        height_of(n) > 0 ==> pow2((height_of(n) - 1) as nat) < n,
    decreases n,
{
    lemma2_to64();
    if n > 1 {
        let half = (n + 1) / 2;
        lemma_height_is_ceil_log2(half);
        lemma_pow2_unfold(height_of(n));
        if height_of(half) > 0 {
            lemma_pow2_unfold(height_of(half));
        }
    }
}

/// The two digests that a climbing step hashes, left one first.
pub open spec fn climb_inputs<H: MerkleHasher>(acc: H::Digest, sibling: H::Digest, side: Side) -> (
    H::Digest,
    H::Digest,
) {
    match side {
        Side::Left => (sibling, acc),
        Side::Right => (acc, sibling),
    }
}

/// Two different pairs of digests with the same parent digest.
pub open spec fn is_collision<H: MerkleHasher>(
    a: (H::Digest, H::Digest),
    b: (H::Digest, H::Digest),
) -> bool {
    a != b && H::node_digest(a.0, a.1) == H::node_digest(b.0, b.1)
}

/// The node rule of the hasher has a collision.
pub open spec fn has_collision<H: MerkleHasher>() -> bool {
    exists|a: (H::Digest, H::Digest), b: (H::Digest, H::Digest)| is_collision::<H>(a, b)
}

/// Climbing along a path is climbing along its first `k` steps, then along
/// the rest.
pub proof fn lemma_recompute_split<H: MerkleHasher>(
    acc: H::Digest,
    path: Seq<(H::Digest, Side)>,
    k: int,
)
    requires
        0 <= k <= path.len(),
    ensures
        recompute::<H>(acc, path) == recompute::<H>(
            recompute::<H>(acc, path.take(k)),
            path.skip(k),
        ),
    decreases k,
{
    if k == 0 {
        assert(path.take(0) =~= Seq::empty());
        assert(path.skip(0) =~= path);
    } else {
        let next = climb::<H>(acc, path[0].0, path[0].1);
        let rest = path.drop_first();
        lemma_recompute_split::<H>(next, rest, k - 1);
        assert(path.take(k).drop_first() =~= rest.take(k - 1));
        assert(path.skip(k) =~= rest.skip(k - 1));
        assert(path.take(k)[0] == path[0]);
    }
}

/// Two climbs that hash different pairs at their first step, agree at every
/// later step in the sibling or in the side, and still arrive at one digest,
/// pass through a collision of the node rule.
proof fn lemma_divergence_collides<H: MerkleHasher>(
    a: H::Digest,
    b: H::Digest,
    p: Seq<(H::Digest, Side)>,
    q: Seq<(H::Digest, Side)>,
)
    requires
        p.len() == q.len(),
        p.len() > 0,
        climb_inputs::<H>(a, p[0].0, p[0].1) != climb_inputs::<H>(b, q[0].0, q[0].1),
        forall|j: int| 1 <= j < p.len() ==> p[j].0 == q[j].0 || p[j].1 == q[j].1,
        recompute::<H>(a, p) == recompute::<H>(b, q),
    ensures
        has_collision::<H>(),
    decreases p.len(),
{
    let in_a = climb_inputs::<H>(a, p[0].0, p[0].1);
    let in_b = climb_inputs::<H>(b, q[0].0, q[0].1);
    let up_a = climb::<H>(a, p[0].0, p[0].1);
    let up_b = climb::<H>(b, q[0].0, q[0].1);
    assert(up_a == H::node_digest(in_a.0, in_a.1));
    assert(up_b == H::node_digest(in_b.0, in_b.1));
    if up_a == up_b {
        assert(is_collision::<H>(in_a, in_b));
    } else {
        let rest_p = p.drop_first();
        let rest_q = q.drop_first();
        if p.len() == 1 {
            assert(recompute::<H>(up_a, rest_p) == up_a);
            assert(recompute::<H>(up_b, rest_q) == up_b);
        } else {
            assert(rest_p[0] == p[1] && rest_q[0] == q[1]);
            assert forall|j: int| 1 <= j < rest_p.len() implies rest_p[j].0 == rest_q[j].0
                || rest_p[j].1 == rest_q[j].1 by {
                assert(rest_p[j] == p[j + 1] && rest_q[j] == q[j + 1]);
            }
            lemma_divergence_collides::<H>(up_a, up_b, rest_p, rest_q);
        }
    }
}

/// A forged path that follows a path up to step `k`, hashes another pair of
/// digests at step `k`, and at every later step keeps the sibling or the
/// side, does not arrive where the path arrives, unless the node rule has a
/// collision.
pub proof fn lemma_tampered_path_collides<H: MerkleHasher>(
    leaf: H::Digest,
    path: Seq<(H::Digest, Side)>,
    forged: Seq<(H::Digest, Side)>,
    k: int,
)
    requires
        forged.len() == path.len(),
        0 <= k < path.len(),
        forall|j: int| 0 <= j < k ==> forged[j] == path[j],
        climb_inputs::<H>(recompute::<H>(leaf, path.take(k)), forged[k].0, forged[k].1)
            != climb_inputs::<H>(recompute::<H>(leaf, path.take(k)), path[k].0, path[k].1),
        forall|j: int|
            k < j < path.len() ==> forged[j].0 == path[j].0 || forged[j].1 == path[j].1,
        recompute::<H>(leaf, forged) == recompute::<H>(leaf, path),
    ensures
        has_collision::<H>(),
{
    let acc = recompute::<H>(leaf, path.take(k));
    lemma_recompute_split::<H>(leaf, path, k);
    lemma_recompute_split::<H>(leaf, forged, k);
    assert(forged.take(k) =~= path.take(k));
    let p = forged.skip(k);
    let q = path.skip(k);
    assert(p[0] == forged[k]);
    assert(q[0] == path[k]);
    assert forall|j: int| 1 <= j < p.len() implies p[j].0 == q[j].0 || p[j].1 == q[j].1 by {
        assert(p[j] == forged[k + j] && q[j] == path[k + j]);
    }
    lemma_divergence_collides::<H>(acc, acc, p, q);
}

/// A proof whose root was replaced by another digest is not valid.
pub proof fn lemma_other_root_fails<H: MerkleHasher>(proof: MerkleProof<H>, forged: MerkleProof<H>)
    requires
        proof.valid(),
        forged.leaf == proof.leaf,
        forged.siblings@ == proof.siblings@,
        forged.root != proof.root,
    ensures
        !forged.valid(),
{
}

/// A valid proof in which sibling digests were replaced by others, the first
/// of them at step `k`, is not valid, unless the node rule has a collision.
/// A single bit turned over in one sibling digest is such a change.
pub proof fn lemma_changed_sibling_fails<H: MerkleHasher>(
    proof: MerkleProof<H>,
    forged: MerkleProof<H>,
    k: int,
)
    requires
        proof.valid(),
        forged.leaf == proof.leaf,
        forged.root == proof.root,
        forged.siblings@.len() == proof.siblings@.len(),
        forall|j: int|
            0 <= j < proof.siblings@.len() ==> forged.siblings@[j].1 == proof.siblings@[j].1,
        0 <= k < proof.siblings@.len(),
        forall|j: int| 0 <= j < k ==> forged.siblings@[j].0 == proof.siblings@[j].0,
        forged.siblings@[k].0 != proof.siblings@[k].0,
    ensures
        forged.valid() ==> has_collision::<H>(),
{
    if forged.valid() {
        lemma_tampered_path_collides::<H>(proof.leaf, proof.siblings@, forged.siblings@, k);
    }
}

/// A valid proof in which sides were turned over, the first of them at step
/// `k`, is not valid, unless the node rule has a collision or the sibling at
/// step `k` is the node itself, as it is for a last node without a partner.
pub proof fn lemma_flipped_side_fails<H: MerkleHasher>(
    proof: MerkleProof<H>,
    forged: MerkleProof<H>,
    k: int,
)
    requires
        proof.valid(),
        forged.leaf == proof.leaf,
        forged.root == proof.root,
        forged.siblings@.len() == proof.siblings@.len(),
        forall|j: int|
            0 <= j < proof.siblings@.len() ==> forged.siblings@[j].0 == proof.siblings@[j].0,
        0 <= k < proof.siblings@.len(),
        forall|j: int| 0 <= j < k ==> forged.siblings@[j].1 == proof.siblings@[j].1,
        forged.siblings@[k].1 != proof.siblings@[k].1,
        proof.siblings@[k].0 != recompute::<H>(proof.leaf, proof.siblings@.take(k)),
    ensures
        forged.valid() ==> has_collision::<H>(),
{
    if forged.valid() {
        lemma_tampered_path_collides::<H>(proof.leaf, proof.siblings@, forged.siblings@, k);
    }
}

} // verus!
