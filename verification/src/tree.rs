//! The shape of the tree as mathematics: levels, root, authentication paths,
//! and the facts that relate them.

use vstd::prelude::*;
use crate::hasher::MerkleHasher;
use crate::merkle_proof::{climb, recompute, Side};

verus! {

/// The digest of the `k`-th pair of `level`. A last node without a partner is
/// paired with itself.
pub open spec fn pair_digest<H: MerkleHasher>(level: Seq<H::Digest>, k: int) -> H::Digest {
    let left = level[2 * k];
    let right = if 2 * k + 1 < level.len() {
        level[2 * k + 1]
    } else {
        left
    };
    H::node_digest(left, right)
}

/// The level above `level`: one digest for each pair.
pub open spec fn parent_level<H: MerkleHasher>(level: Seq<H::Digest>) -> Seq<H::Digest> {
    Seq::new(((level.len() + 1) / 2) as nat, |k: int| pair_digest::<H>(level, k))
}

/// All levels above and including `leaves`, bottom up. The last one holds the
/// root alone.
pub open spec fn levels_of<H: MerkleHasher>(leaves: Seq<H::Digest>) -> Seq<Seq<H::Digest>>
    decreases leaves.len(),
{
    if leaves.len() <= 1 {
        seq![leaves]
    } else {
        seq![leaves] + levels_of::<H>(parent_level::<H>(leaves))
    }
}

/// The root digest of the tree over `leaves`.
pub open spec fn root_of<H: MerkleHasher>(leaves: Seq<H::Digest>) -> H::Digest
    decreases leaves.len(),
{
    if leaves.len() <= 1 {
        leaves[0]
    } else {
        root_of::<H>(parent_level::<H>(leaves))
    }
}

/// The number of combination levels of a tree over `n` leaves.
pub open spec fn height_of(n: nat) -> nat
    decreases n,
{
    if n <= 1 {
        0
    } else {
        1 + height_of((n + 1) / 2)
    }
}

/// The position of the sibling of node `i` in a level of `len` nodes: its
/// partner in the pair, or `i` itself where `i` is a last node without one.
pub open spec fn sibling_index(len: int, i: int) -> int {
    if i % 2 == 1 {
        i - 1
    } else if i + 1 < len {
        i + 1
    } else {
        i
    }
}

/// The side on which the sibling of node `i` lies.
pub open spec fn sibling_side(i: int) -> Side {
    if i % 2 == 1 {
        Side::Left
    } else {
        Side::Right
    }
}

/// The authentication path of node `i` of `level`: at each level the sibling
/// and its side, up to the root.
pub open spec fn path_of<H: MerkleHasher>(level: Seq<H::Digest>, i: int) -> Seq<(H::Digest, Side)>
    decreases level.len(),
{
    if level.len() <= 1 {
        Seq::empty()
    } else {
        seq![(level[sibling_index(level.len() as int, i)], sibling_side(i))] + path_of::<H>(
            parent_level::<H>(level),
            i / 2,
        )
    }
}

/// Climbing from a node by its sibling reaches the node's parent.
pub proof fn lemma_climb_to_parent<H: MerkleHasher>(level: Seq<H::Digest>, i: int)
    requires
        0 <= i < level.len(),
    ensures
        climb::<H>(level[i], level[sibling_index(level.len() as int, i)], sibling_side(i))
            == parent_level::<H>(level)[i / 2],
{
    let k = i / 2;
    assert(0 <= k < (level.len() + 1) / 2);
    assert(parent_level::<H>(level)[k] == pair_digest::<H>(level, k));
}

/// The authentication path of any node recomputes the root.
pub proof fn lemma_path_reaches_root<H: MerkleHasher>(level: Seq<H::Digest>, i: int)
    requires
        0 <= i < level.len(),
    ensures
        recompute::<H>(level[i], path_of::<H>(level, i)) == root_of::<H>(level),
    decreases level.len(),
{
    if level.len() > 1 {
        let up = parent_level::<H>(level);
        let path = path_of::<H>(level, i);
        let rest = path_of::<H>(up, i / 2);
        assert(path.drop_first() =~= rest);
        lemma_climb_to_parent::<H>(level, i);
        lemma_path_reaches_root::<H>(up, i / 2);
    }
}

/// The length of an authentication path is the height of the tree.
pub proof fn lemma_path_len<H: MerkleHasher>(level: Seq<H::Digest>, i: int)
    ensures
        path_of::<H>(level, i).len() == height_of(level.len()),
    decreases level.len(),
{
    if level.len() > 1 {
        lemma_path_len::<H>(parent_level::<H>(level), i / 2);
    }
}

/// How the levels hang together: the first is the leaves, each next one is
/// the parent level of the one below, and only the last has a single node.
pub proof fn lemma_levels_chain<H: MerkleHasher>(leaves: Seq<H::Digest>)
    requires
        leaves.len() > 0,
    ensures
        levels_of::<H>(leaves).len() == height_of(leaves.len()) + 1,
        levels_of::<H>(leaves)[0] == leaves,
        levels_of::<H>(leaves).last().len() == 1,
        levels_of::<H>(leaves).last()[0] == root_of::<H>(leaves),
        forall|k: int|
            0 <= k < levels_of::<H>(leaves).len() - 1 ==> {
                &&& (#[trigger] levels_of::<H>(leaves)[k]).len() > 1
                &&& levels_of::<H>(leaves)[k + 1] == parent_level::<H>(levels_of::<H>(leaves)[k])
            },
    decreases leaves.len(),
{
    if leaves.len() > 1 {
        let up = parent_level::<H>(leaves);
        lemma_levels_chain::<H>(up);
        let all = levels_of::<H>(leaves);
        let above = levels_of::<H>(up);
        assert(all =~= seq![leaves] + above);
        assert forall|k: int| 0 <= k < all.len() - 1 implies {
            &&& (#[trigger] all[k]).len() > 1
            &&& all[k + 1] == parent_level::<H>(all[k])
        } by {
            if k > 0 {
                assert(all[k] == above[k - 1]);
                assert(all[k + 1] == above[k]);
            } else {
                assert(all[1] == above[0]);
            }
        }
        assert(all.last() == above.last());
    }
}

} // verus!
