//! The static Merkle array: built once from a non-empty sequence of items,
//! then only read.

use vstd::prelude::*;
use vstd::string::StringExecFns;
use crate::hasher::{Encodable, MerkleHasher};
use crate::merkle_proof::{MerkleProof, Side};
use crate::tree::{
    height_of, lemma_levels_chain, lemma_path_len, lemma_path_reaches_root, levels_of,
    parent_level, path_of, pair_digest, root_of, sibling_index,
};

verus! {

/// Why a lookup in a tree failed.
#[derive(Debug, Clone, Copy, PartialEq, Eq, Structural)]
pub enum MerkleError {
    /// The index is not below the length of the array.
    IndexOob,
    /// No item of the array has the value's digest, or not as many as asked.
    NotFound,
}

impl MerkleError {
    /// The failure in words.
    pub fn message(&self) -> (text: String)
        ensures
            text@ == match *self {
                MerkleError::IndexOob => "index out of bounds"@,
                MerkleError::NotFound => "item not found in array"@,
            },
    {
        match self {
            MerkleError::IndexOob => String::from_str("index out of bounds"),
            MerkleError::NotFound => String::from_str("item not found in array"),
        }
    }
}

/// The leaf digests of `items`, position by position.
pub open spec fn leaf_digests<T: Encodable, H: MerkleHasher>(items: Seq<T>) -> Seq<H::Digest> {
    Seq::new(items.len(), |i: int| H::leaf_digest(items[i].encoding()))
}

/// The root digest of the array `items`.
pub open spec fn merkle_root<T: Encodable, H: MerkleHasher>(items: Seq<T>) -> H::Digest {
    root_of::<H>(leaf_digests::<T, H>(items))
}

/// The levels as sequences of digests.
pub open spec fn level_views<D>(levels: Seq<Vec<D>>) -> Seq<Seq<D>> {
    Seq::new(levels.len(), |k: int| levels[k]@)
}

fn hash_leaves<T: Encodable, H: MerkleHasher>(items: &Vec<T>) -> (leaves: Vec<H::Digest>)
    ensures
        leaves@ == leaf_digests::<T, H>(items@),
{
    let n = items.len();
    let mut leaves: Vec<H::Digest> = Vec::with_capacity(n);
    let mut i: usize = 0;
    while i < n
        invariant
            n == items@.len(),
            i <= n,
            leaves@.len() == i,
            forall|j: int| 0 <= j < i ==> leaves@[j] == H::leaf_digest(#[trigger] items@[j].encoding()),
        decreases n - i,
    {
        leaves.push(H::leaf(&items[i]));
        i += 1;
    }
    assert(leaves@ =~= leaf_digests::<T, H>(items@));
    leaves
}

fn combine_level<H: MerkleHasher>(cur: &Vec<H::Digest>) -> (next: Vec<H::Digest>)
    ensures
        next@ == parent_level::<H>(cur@),
{
    let n = cur.len();
    let half = n / 2 + n % 2;
    let mut next: Vec<H::Digest> = Vec::with_capacity(half);
    let mut k: usize = 0;
    while k < half
        invariant
            n == cur@.len(),
            half == (n + 1) / 2,
            k <= half,
            next@.len() == k,
            forall|j: int| 0 <= j < k ==> #[trigger] next@[j] == pair_digest::<H>(cur@, j),
        decreases half - k,
    {
        let left = 2 * k;
        let right = if left + 1 < n {
            left + 1
        } else {
            left
        };
        next.push(H::node(&cur[left], &cur[right]));
        k += 1;
    }
    assert(next@ =~= parent_level::<H>(cur@));
    next
}

fn build_levels<H: MerkleHasher>(leaves: Vec<H::Digest>) -> (levels: Vec<Vec<H::Digest>>)
    requires
        leaves@.len() > 0,
    ensures
        level_views(levels@) == levels_of::<H>(leaves@),
{
    let ghost all = levels_of::<H>(leaves@);
    let mut levels: Vec<Vec<H::Digest>> = Vec::new();
    let mut cur = leaves;
    assert(level_views(levels@) + levels_of::<H>(cur@) =~= all);
    while cur.len() > 1
        invariant
            cur@.len() > 0,
            level_views(levels@) + levels_of::<H>(cur@) == all,
        decreases cur@.len(),
    {
        let next = combine_level::<H>(&cur);
        proof {
            let done = level_views(levels@);
            assert(level_views(levels@.push(cur)) =~= done.push(cur@));
            assert(done.push(cur@) + levels_of::<H>(next@) =~= done + levels_of::<H>(cur@));
        }
        levels.push(cur);
        cur = next;
    }
    proof {
        let done = level_views(levels@);
        assert(level_views(levels@.push(cur)) =~= done.push(cur@));
        assert(done.push(cur@) =~= done + levels_of::<H>(cur@));
    }
    levels.push(cur);
    levels
}

/// The positions below `n` whose leaf digest is `digest`, in rising order.
pub open spec fn positions_below<D>(leaves: Seq<D>, digest: D, n: int) -> Seq<usize>
    decreases n,
{
    if n <= 0 {
        Seq::empty()
    } else if leaves[n - 1] == digest {
        positions_below(leaves, digest, n - 1).push((n - 1) as usize)
    } else {
        positions_below(leaves, digest, n - 1)
    }
}

/// All positions whose leaf digest is `digest`, in rising order.
pub open spec fn positions_in<D>(leaves: Seq<D>, digest: D) -> Seq<usize> {
    positions_below(leaves, digest, leaves.len() as int)
}

/// `proof` is the membership proof of position `index` in the array `items`:
/// index, leaf, root and path are the ones of the tree over `items`.
pub open spec fn is_proof_of<T: Encodable, H: MerkleHasher>(
    proof: MerkleProof<H>,
    items: Seq<T>,
    index: int,
) -> bool {
    let leaves = leaf_digests::<T, H>(items);
    &&& proof.index == index
    &&& proof.leaf == leaves[index]
    &&& proof.root == root_of::<H>(leaves)
    &&& proof.siblings@ == path_of::<H>(leaves, index)
}

/// Some entry of the index has the key `digest`.
pub open spec fn has_key<D>(index: Seq<(D, Vec<usize>)>, digest: D) -> bool {
    exists|j: int| 0 <= j < index.len() && (#[trigger] index[j]).0 == digest
}

/// The index holds, for the first `n` leaves, one entry for each distinct
/// digest, with all positions of that digest in rising order.
spec fn index_covers<D>(index: Seq<(D, Vec<usize>)>, leaves: Seq<D>, n: int) -> bool {
    &&& forall|j: int|
        0 <= j < index.len() ==> {
            &&& (#[trigger] index[j]).1@ == positions_below(leaves, index[j].0, n)
            &&& index[j].1@.len() > 0
        }
    &&& forall|a: int, b: int|
        0 <= a < b < index.len() ==> (#[trigger] index[a]).0 != (#[trigger] index[b]).0
    &&& forall|i: int| 0 <= i < n ==> has_key(index, #[trigger] leaves[i])
}

proof fn lemma_no_positions<D>(leaves: Seq<D>, digest: D, n: int)
    requires
        forall|i: int| 0 <= i < n ==> leaves[i] != digest,
    ensures
        positions_below(leaves, digest, n) == Seq::<usize>::empty(),
    decreases n,
{
    if n > 0 {
        lemma_no_positions(leaves, digest, n - 1);
    }
}

fn find_key<H: MerkleHasher>(index: &Vec<(H::Digest, Vec<usize>)>, digest: &H::Digest) -> (found:
    Option<usize>)
    ensures
        match found {
            Some(j) => j < index@.len() && index@[j as int].0 == *digest,
            None => !has_key(index@, *digest),
        },
{
    let n = index.len();
    let mut j: usize = 0;
    while j < n
        invariant
            n == index@.len(),
            j <= n,
            forall|k: int| 0 <= k < j ==> (#[trigger] index@[k]).0 != *digest,
        decreases n - j,
    {
        if H::same_digest(&index[j].0, digest) {
            return Some(j);
        }
        j += 1;
    }
    None
}

fn build_index<H: MerkleHasher>(leaves: &Vec<H::Digest>) -> (index: Vec<(H::Digest, Vec<usize>)>)
    ensures
        index_covers(index@, leaves@, leaves@.len() as int),
{
    let n = leaves.len();
    let mut index: Vec<(H::Digest, Vec<usize>)> = Vec::new();
    let mut i: usize = 0;
    while i < n
        invariant
            n == leaves@.len(),
            i <= n,
            index_covers(index@, leaves@, i as int),
        decreases n - i,
    {
        let ghost before = index@;
        let digest = leaves[i];
        match find_key::<H>(&index, &digest) {
            Some(j) => {
                index[j].1.push(i);
                assert forall|k: int| 0 <= k < i + 1 implies has_key(index@, #[trigger] leaves@[k]) by {
                    if k < i {
                        assert(has_key(before, leaves@[k]));
                        let w = choose|w: int| 0 <= w < before.len() && (#[trigger] before[w]).0 == leaves@[k];
                        assert(index@[w].0 == leaves@[k]);
                    } else {
                        assert(index@[j as int].0 == leaves@[k]);
                    }
                }
            },
            None => {
                proof {
                    assert forall|k: int| 0 <= k < i implies leaves@[k] != digest by {
                        assert(has_key(before, leaves@[k]));
                    }
                    lemma_no_positions(leaves@, digest, i as int);
                }
                let mut positions: Vec<usize> = Vec::new();
                positions.push(i);
                index.push((digest, positions));
                assert forall|k: int| 0 <= k < i + 1 implies has_key(index@, #[trigger] leaves@[k]) by {
                    if k < i {
                        assert(has_key(before, leaves@[k]));
                        let w = choose|w: int| 0 <= w < before.len() && (#[trigger] before[w]).0 == leaves@[k];
                        assert(index@[w].0 == leaves@[k]);
                    } else {
                        assert(index@[before.len() as int].0 == leaves@[k]);
                    }
                }
            },
        }
        i += 1;
    }
    index
}

fn same_level<H: MerkleHasher>(a: &Vec<H::Digest>, b: &Vec<H::Digest>) -> (same: bool)
    ensures
        same == (a@ == b@),
{
    let n = a.len();
    if b.len() != n {
        return false;
    }
    let mut i: usize = 0;
    while i < n
        invariant
            n == a@.len(),
            n == b@.len(),
            i <= n,
            forall|k: int| 0 <= k < i ==> a@[k] == b@[k],
        decreases n - i,
    {
        if !H::same_digest(&a[i], &b[i]) {
            return false;
        }
        i += 1;
    }
    assert(a@ =~= b@);
    true
}

fn same_levels<H: MerkleHasher>(a: &Vec<Vec<H::Digest>>, b: &Vec<Vec<H::Digest>>) -> (same: bool)
    ensures
        same == (level_views(a@) == level_views(b@)),
{
    let n = a.len();
    if b.len() != n {
        assert(level_views(a@).len() != level_views(b@).len());
        return false;
    }
    let mut k: usize = 0;
    while k < n
        invariant
            n == a@.len(),
            n == b@.len(),
            k <= n,
            forall|j: int| 0 <= j < k ==> (#[trigger] a@[j])@ == b@[j]@,
        decreases n - k,
    {
        if !same_level::<H>(&a[k], &b[k]) {
            assert(level_views(a@)[k as int] != level_views(b@)[k as int]);
            return false;
        }
        k += 1;
    }
    assert(level_views(a@) =~= level_views(b@));
    true
}

/// Static array Merkle commitment, hashed by `H`. It keeps the items, the
/// levels of digests from the leaves up to the root, and for each distinct
/// leaf digest the positions that have it.
#[derive(Debug)]
pub struct StaticMerkleArray<T: Encodable, H: MerkleHasher> {
    items: Vec<T>,
    levels: Vec<Vec<H::Digest>>,
    index_map: Vec<(H::Digest, Vec<usize>)>,
}

impl<T: Encodable, H: MerkleHasher> View for StaticMerkleArray<T, H> {
    type V = Seq<T>;

    /// The items that the tree was built from, in order.
    closed spec fn view(&self) -> Seq<T> {
        self.items@
    }
}

impl<T: Encodable, H: MerkleHasher> StaticMerkleArray<T, H> {
    /// The tree is the one over its items: there is at least one item, the
    /// levels are those of the items' leaf digests, and the index lists the
    /// positions of every leaf digest.
    pub closed spec fn wf(&self) -> bool {
        let leaves = leaf_digests::<T, H>(self.items@);
        &&& self.items@.len() > 0
        &&& level_views(self.levels@) == levels_of::<H>(leaves)
        &&& index_covers(self.index_map@, leaves, leaves.len() as int)
    }

    #[verifier::type_invariant]
    spec fn well_formed(&self) -> bool {
        self.wf()
    }

    /// The digest that the tree holds at its top.
    pub closed spec fn root_digest(&self) -> H::Digest {
        self.levels@.last()@[0]
    }

    /// Builds the tree over `items`: hashes each item into a leaf, then
    /// combines pairs level by level until one digest is left. A last node
    /// without a partner is combined with itself.
    pub fn new(items: Vec<T>) -> (tree: Self)
        requires
            items@.len() > 0,
        ensures
            tree@ == items@,
            tree.wf(),
    {
        let leaves = hash_leaves::<T, H>(&items);
        let index_map = build_index::<H>(&leaves);
        let levels = build_levels::<H>(leaves);
        StaticMerkleArray { items, levels, index_map }
    }

    /// Root commitment.
    pub fn root(&self) -> (root: H::Digest)
        ensures
            root == merkle_root::<T, H>(self@),
            root == self.root_digest(),
    {
        proof {
            use_type_invariant(self);
            lemma_levels_chain::<H>(leaf_digests::<T, H>(self.items@));
        }
        let top = self.levels.len() - 1;
        assert(level_views(self.levels@)[top as int] == self.levels@[top as int]@);
        self.levels[top][0]
    }

    /// Array length.
    pub fn len(&self) -> (n: usize)
        ensures
            n == self@.len(),
            n > 0,
    {
        proof {
            use_type_invariant(self);
        }
        self.items.len()
    }

    /// Is the array empty? A built tree never is.
    pub fn is_empty(&self) -> (empty: bool)
        ensures
            empty == (self@.len() == 0),
            !empty,
    {
        proof {
            use_type_invariant(self);
        }
        self.items.len() == 0
    }

    /// The items, in order.
    pub fn items(&self) -> (items: &Vec<T>)
        ensures
            items@ == self@,
    {
        &self.items
    }

    /// The levels of digests, from the leaves up to the root.
    pub fn levels(&self) -> (levels: &Vec<Vec<H::Digest>>)
        ensures
            level_views(levels@) == levels_of::<H>(leaf_digests::<T, H>(self@)),
    {
        proof {
            use_type_invariant(self);
        }
        &self.levels
    }

    /// The index of positions: one entry for each distinct leaf digest, with
    /// all positions that have it, in rising order.
    pub fn index_entries(&self) -> (entries: &Vec<(H::Digest, Vec<usize>)>)
        ensures
            forall|j: int|
                0 <= j < entries@.len() ==> {
                    &&& (#[trigger] entries@[j]).1@ == positions_in(
                        leaf_digests::<T, H>(self@),
                        entries@[j].0,
                    )
                    &&& entries@[j].1@.len() > 0
                },
            forall|a: int, b: int|
                0 <= a < b < entries@.len() ==> (#[trigger] entries@[a]).0 != (
                #[trigger] entries@[b]).0,
            forall|i: int|
                0 <= i < self@.len() ==> has_key(
                    entries@,
                    #[trigger] leaf_digests::<T, H>(self@)[i],
                ),
    {
        proof {
            use_type_invariant(self);
        }
        &self.index_map
    }

    /// Puts a tree together again from its items and its levels, as they
    /// were taken from a tree before. The levels are held against the items:
    /// levels that are not those of the items give no tree.
    pub fn from_parts(items: Vec<T>, levels: Vec<Vec<H::Digest>>) -> (tree: Option<Self>)
        ensures
            match tree {
                Some(t) => t@ == items@ && t.wf(),
                None => true,
            },
            tree is Some <==> items@.len() > 0 && level_views(levels@) == levels_of::<H>(
                leaf_digests::<T, H>(items@),
            ),
    {
        if items.len() == 0 {
            return None;
        }
        let tree = Self::new(items);
        if same_levels::<H>(&tree.levels, &levels) {
            Some(tree)
        } else {
            None
        }
    }

    /// Builds the membership proof of the item at `index`: from the leaf
    /// level up, the sibling of the current node and the side it lies on.
    pub fn prove_index(&self, index: usize) -> (result: Result<MerkleProof<H>, MerkleError>)
        ensures
            match result {
                Ok(proof) => {
                    &&& index < self@.len()
                    &&& is_proof_of(proof, self@, index as int)
                    &&& proof.siblings@.len() == height_of(self@.len())
                    &&& proof.valid()
                },
                Err(e) => index >= self@.len() && e == MerkleError::IndexOob,
            },
    {
        if index >= self.items.len() {
            return Err(MerkleError::IndexOob);
        }
        let ghost leaves = leaf_digests::<T, H>(self.items@);
        let ghost all = levels_of::<H>(leaves);
        proof {
            use_type_invariant(self);
            lemma_levels_chain::<H>(leaves);
            assert(all[0] == self.levels@[0]@);
        }
        let leaf = self.levels[0][index];
        let top = self.levels.len() - 1;
        let mut siblings: Vec<(H::Digest, Side)> = Vec::new();
        let mut i = index;
        let mut level: usize = 0;
        assert(siblings@ + path_of::<H>(all[0], i as int) =~= path_of::<H>(leaves, index as int));
        while level < top
            invariant
                level_views(self.levels@) == all,
                top + 1 == all.len(),
                all.last().len() == 1,
                forall|k: int|
                    0 <= k < all.len() - 1 ==> {
                        &&& (#[trigger] all[k]).len() > 1
                        &&& all[k + 1] == parent_level::<H>(all[k])
                    },
                level <= top,
                i < all[level as int].len(),
                siblings@ + path_of::<H>(all[level as int], i as int) == path_of::<H>(
                    leaves,
                    index as int,
                ),
            decreases top - level,
        {
            let nodes = &self.levels[level];
            assert(nodes@ == all[level as int]);
            assert(all[level + 1] == parent_level::<H>(all[level as int]));
            let is_right = i % 2 == 1;
            let paired = if is_right {
                i - 1
            } else {
                i + 1
            };
            let sib_idx = if paired < nodes.len() - 1 {
                paired
            } else {
                nodes.len() - 1
            };
            assert(sib_idx == sibling_index(nodes@.len() as int, i as int));
            let sib = nodes[sib_idx];
            let side = if is_right {
                Side::Left
            } else {
                Side::Right
            };
            assert(siblings@.push((sib, side)) + path_of::<H>(all[level + 1], i as int / 2)
                =~= siblings@ + path_of::<H>(all[level as int], i as int));
            siblings.push((sib, side));
            i = i / 2;
            level += 1;
        }
        let root = self.root();
        proof {
            assert(path_of::<H>(all[top as int], i as int) =~= Seq::empty());
            assert(siblings@ =~= path_of::<H>(leaves, index as int));
            lemma_path_reaches_root::<H>(leaves, index as int);
            lemma_path_len::<H>(leaves, index as int);
        }
        Ok(MerkleProof { index, siblings, root, leaf })
    }

    /// All positions of `item` in the array, in rising order: the positions
    /// whose leaf digest is the digest of `item`.
    pub fn positions_of(&self, item: &T) -> (positions: Vec<usize>)
        ensures
            positions@ == positions_in(
                leaf_digests::<T, H>(self@),
                H::leaf_digest(item.encoding()),
            ),
    {
        let ghost leaves = leaf_digests::<T, H>(self.items@);
        proof {
            use_type_invariant(self);
        }
        let digest = H::leaf(item);
        match find_key::<H>(&self.index_map, &digest) {
            Some(j) => {
                let positions = self.index_map[j].1.clone();
                assert(positions@ =~= self.index_map@[j as int].1@);
                positions
            },
            None => {
                proof {
                    assert forall|k: int| 0 <= k < leaves.len() implies leaves[k] != digest by {
                        assert(has_key(self.index_map@, leaves[k]));
                    }
                    lemma_no_positions(leaves, digest, leaves.len() as int);
                }
                Vec::new()
            },
        }
    }

    /// Builds the membership proof of `item`, found by value. Where it occurs
    /// more than once, `occurrence` picks one, counted from 0 in rising
    /// order of position; without it the first is taken.
    pub fn prove_item(&self, item: &T, occurrence: Option<usize>) -> (result: Result<
        MerkleProof<H>,
        MerkleError,
    >)
        ensures
            ({
                let positions = positions_in(
                    leaf_digests::<T, H>(self@),
                    H::leaf_digest(item.encoding()),
                );
                let nth = match occurrence {
                    Some(k) => k as int,
                    None => 0,
                };
                match result {
                    Ok(proof) => {
                        &&& nth < positions.len()
                        &&& is_proof_of(proof, self@, positions[nth] as int)
                        &&& proof.siblings@.len() == height_of(self@.len())
                        &&& proof.valid()
                    },
                    Err(e) => nth >= positions.len() && e == MerkleError::NotFound,
                }
            }),
    {
        let poss = self.positions_of(item);
        if poss.len() == 0 {
            return Err(MerkleError::NotFound);
        }
        let idx = match occurrence {
            Some(k) => k,
            None => 0,
        };
        if idx >= poss.len() {
            return Err(MerkleError::NotFound);
        }
        proof {
            assert(leaf_digests::<T, H>(self@).len() == self.items.len());
            lemma_positions_sound(
                leaf_digests::<T, H>(self@),
                H::leaf_digest(item.encoding()),
                self@.len() as int,
            );
        }
        self.prove_index(poss[idx])
    }
}

/// Every listed position lies below `n` and has the digest, and the
/// positions rise strictly.
pub proof fn lemma_positions_sound<D>(leaves: Seq<D>, digest: D, n: int)
    requires
        n <= leaves.len() <= usize::MAX,
    ensures
        forall|k: int|
            0 <= k < positions_below(leaves, digest, n).len() ==> {
                &&& (#[trigger] positions_below(leaves, digest, n)[k]) < n
                &&& leaves[positions_below(leaves, digest, n)[k] as int] == digest
            },
        forall|a: int, b: int|
            0 <= a < b < positions_below(leaves, digest, n).len() ==> positions_below(
                leaves,
                digest,
                n,
            )[a] < positions_below(leaves, digest, n)[b],
    decreases n,
{
    if n > 0 {
        lemma_positions_sound(leaves, digest, n - 1);
        let before = positions_below(leaves, digest, n - 1);
        let now = positions_below(leaves, digest, n);
        assert forall|k: int| 0 <= k < now.len() implies {
            &&& (#[trigger] now[k]) < n
            &&& leaves[now[k] as int] == digest
        } by {
            if k < before.len() {
                assert(now[k] == before[k]);
            }
        }
        assert forall|a: int, b: int| 0 <= a < b < now.len() implies now[a] < now[b] by {
            assert(now[a] == before[a]);
            if b < before.len() {
                assert(now[b] == before[b]);
            }
        }
    }
}

/// Every position below `n` that has the digest is listed.
pub proof fn lemma_positions_complete<D>(leaves: Seq<D>, digest: D, n: int, i: int)
    requires
        0 <= i < n <= leaves.len() <= usize::MAX,
        leaves[i] == digest,
    ensures
        positions_below(leaves, digest, n).contains(i as usize),
    decreases n,
{
    let now = positions_below(leaves, digest, n);
    if i == n - 1 {
        assert(now[now.len() - 1] == i as usize);
    } else {
        lemma_positions_complete(leaves, digest, n - 1, i);
        let before = positions_below(leaves, digest, n - 1);
        let k = choose|k: int| 0 <= k < before.len() && before[k] == i as usize;
        assert(now[k] == i as usize);
    }
}

/// A tree holds at its top the root of its items.
pub proof fn lemma_root_is_merkle_root<T: Encodable, H: MerkleHasher>(tree: StaticMerkleArray<T, H>)
    requires
        tree.wf(),
    ensures
        tree@.len() > 0,
        tree.root_digest() == merkle_root::<T, H>(tree@),
{
    let leaves = leaf_digests::<T, H>(tree.items@);
    lemma_levels_chain::<H>(leaves);
    let top = tree.levels@.len() - 1;
    assert(level_views(tree.levels@)[top] == tree.levels@[top]@);
}

/// Building is deterministic: two trees over the same items hold the same
/// root.
pub proof fn lemma_same_items_same_root<T: Encodable, H: MerkleHasher>(
    a: StaticMerkleArray<T, H>,
    b: StaticMerkleArray<T, H>,
)
    requires
        a.wf(),
        b.wf(),
        a@ == b@,
    ensures
        a.root_digest() == b.root_digest(),
{
    lemma_root_is_merkle_root(a);
    lemma_root_is_merkle_root(b);
}

} // verus!
