use sha2::Digest;
use static_merkle_array::{
    verify_value_with_proof, Encodable, Encoded, MerkleError, MerkleHasher, MerkleProof, Sha256Hasher,
    Side, StaticMerkleArray,
};

type Tree<T> = StaticMerkleArray<T, Sha256Hasher>;

fn sha(bytes: &[u8]) -> [u8; 32] {
    sha2::Sha256::digest(bytes).into()
}

fn leaf_of(x: u64) -> [u8; 32] {
    let mut buf = vec![0u8];
    buf.extend_from_slice(&x.to_le_bytes());
    sha(&buf)
}

fn node_of(l: &[u8; 32], r: &[u8; 32]) -> [u8; 32] {
    let mut buf = vec![1u8];
    buf.extend_from_slice(l);
    buf.extend_from_slice(r);
    sha(&buf)
}

fn ceil_log2(n: usize) -> usize {
    let mut h = 0;
    while (1usize << h) < n {
        h += 1;
    }
    h
}

#[test]
fn sha256_leaf_digest_is_tagged_hash_of_encoding() {
    let expected: [u8; 32] = [
        0x3e, 0x70, 0x77, 0xfd, 0x2f, 0x66, 0xd6, 0x89, 0xe0, 0xce, 0xe6, 0xa7, 0xcf, 0x5b, 0x37, 0xbf,
        0x2d, 0xca, 0x7c, 0x97, 0x9a, 0xf3, 0x56, 0xd0, 0xa3, 0x1c, 0xbc, 0x5c, 0x85, 0x60, 0x5c, 0x7d,
    ];
    assert_eq!(Sha256Hasher::leaf(&0u64), expected);
    assert_eq!(Sha256Hasher::leaf(&0u64), leaf_of(0));
    let seven: [u8; 32] = [
        0xa0, 0xe2, 0x8c, 0x45, 0x7f, 0x05, 0xe0, 0xfb, 0xd6, 0x92, 0x0b, 0x83, 0x56, 0x13, 0xad, 0xb6,
        0xc5, 0x68, 0xdb, 0x0e, 0x41, 0x58, 0xcd, 0x81, 0x2e, 0x66, 0xdd, 0x75, 0xe7, 0x5a, 0x63, 0x0f,
    ];
    assert_eq!(Sha256Hasher::leaf(&7u32), seven);
    assert_eq!(Sha256Hasher::leaf(&7i32), seven);
    let minus_two: [u8; 32] = [
        0xc6, 0x2f, 0x35, 0x24, 0xfb, 0xc9, 0xea, 0xf8, 0xc8, 0xcb, 0x11, 0x30, 0xf2, 0x63, 0x40, 0xd4,
        0x0c, 0xe1, 0xc1, 0xc3, 0xdf, 0x82, 0x81, 0x1b, 0x2f, 0x1a, 0xb6, 0xe4, 0x07, 0x45, 0xaf, 0x85,
    ];
    assert_eq!(Sha256Hasher::leaf(&-2i32), minus_two);
}

#[test]
fn sha256_node_digest_is_tagged_hash_of_children() {
    let l = leaf_of(0);
    let r = leaf_of(1);
    let expected: [u8; 32] = [
        0x65, 0x66, 0x75, 0xc0, 0x27, 0xa9, 0xaf, 0xdd, 0x7b, 0x83, 0xf5, 0xdf, 0xef, 0x7f, 0xca, 0x33,
        0x88, 0x3f, 0x07, 0x03, 0x9f, 0x8a, 0x9a, 0x67, 0xc2, 0x31, 0x88, 0xaa, 0x5b, 0x7f, 0x21, 0x43,
    ];
    assert_eq!(Sha256Hasher::node(&l, &r), expected);
    // order matters
    assert_ne!(Sha256Hasher::node(&r, &l), expected);
    // a leaf digest is no node digest of the same bytes
    assert_ne!(Sha256Hasher::node(&l, &r), sha(&[&[0u8][..], &l[..], &r[..]].concat()));
}

#[test]
fn same_digest_compares_bytes() {
    let a = leaf_of(3);
    let mut b = a;
    assert!(Sha256Hasher::same_digest(&a, &b));
    b[31] ^= 1;
    assert!(!Sha256Hasher::same_digest(&a, &b));
    b = a;
    b[0] ^= 0x80;
    assert!(!Sha256Hasher::same_digest(&a, &b));
}

#[test]
fn integer_items_encode_at_full_width_little_endian() {
    assert_eq!(0x0102_0304u32.encode(), vec![4, 3, 2, 1]);
    assert_eq!(u32::MAX.encode(), vec![0xff; 4]);
    assert_eq!((-2i32).encode(), vec![0xfe, 0xff, 0xff, 0xff]);
    assert_eq!(i32::MIN.encode(), vec![0, 0, 0, 0x80]);
    assert_eq!(7i32.encode(), 7u32.encode());
    assert_eq!(0x0102_0304_0506_0708u64.encode(), vec![8, 7, 6, 5, 4, 3, 2, 1]);
    assert_eq!(0u64.encode(), vec![0; 8]);
    let pre = Encoded { bytes: vec![9, 8, 7] };
    assert_eq!(pre.encode(), vec![9, 8, 7]);
}

#[test]
fn single_item_tree_has_leaf_as_root_and_empty_path() {
    let sm = Tree::new(vec![42u64]);
    assert_eq!(sm.len(), 1);
    assert!(!sm.is_empty());
    assert_eq!(sm.root(), leaf_of(42));
    assert_eq!(sm.levels().len(), 1);
    let p = sm.prove_index(0).unwrap();
    assert!(p.siblings.is_empty());
    assert_eq!(p.root, leaf_of(42));
    assert_eq!(p.leaf, leaf_of(42));
    assert!(p.verify());
}

#[test]
fn three_item_tree_pairs_last_node_with_itself() {
    let sm = Tree::new(vec![0u64, 1, 2]);
    let l: Vec<[u8; 32]> = (0..3).map(leaf_of).collect();
    let left = node_of(&l[0], &l[1]);
    let right = node_of(&l[2], &l[2]);
    let root = node_of(&left, &right);
    assert_eq!(sm.root(), root);
    let expected: [u8; 32] = [
        0xe1, 0x75, 0xa2, 0x96, 0xa7, 0x13, 0xf4, 0x6c, 0xc2, 0x38, 0x19, 0xc1, 0x57, 0x15, 0x7a, 0x53,
        0xb0, 0x14, 0x8b, 0x23, 0xea, 0x77, 0x18, 0xc1, 0x23, 0x23, 0xac, 0x06, 0x2f, 0xea, 0x4f, 0x7c,
    ];
    assert_eq!(sm.root(), expected);

    // levels are kept without the copy: 3, 2 and 1 digests
    let levels = sm.levels();
    assert_eq!(levels.len(), 3);
    assert_eq!(levels[0], l);
    assert_eq!(levels[1], vec![left, right]);
    assert_eq!(levels[2], vec![root]);

    // the last leaf is its own sibling, on the right
    let at_two = sm.prove_index(2).unwrap();
    assert_eq!(at_two.siblings, vec![(l[2], Side::Right), (left, Side::Left)]);
    assert!(at_two.verify());

    let at_zero = sm.prove_index(0).unwrap();
    assert_eq!(at_zero.siblings, vec![(l[1], Side::Right), (right, Side::Right)]);
    let at_one = sm.prove_index(1).unwrap();
    assert_eq!(at_one.siblings, vec![(l[0], Side::Left), (right, Side::Right)]);
}

#[test]
fn ten_item_root_has_known_value() {
    let arr: Vec<u64> = (0..10).collect();
    let sm = Tree::new(arr);
    let expected: [u8; 32] = [
        0x54, 0x92, 0xa7, 0x23, 0xb5, 0xcd, 0x48, 0x97, 0x4d, 0xbb, 0x84, 0xcb, 0x32, 0x43, 0xff, 0x0d,
        0xf0, 0x1f, 0xe6, 0x9a, 0x58, 0x7d, 0x57, 0x3a, 0xc4, 0xca, 0x99, 0x96, 0xed, 0x4c, 0xd9, 0x08,
    ];
    assert_eq!(sm.root(), expected);
}

#[test]
fn every_index_proves_and_leaf_is_digest_of_item() {
    for n in 1usize..40 {
        let arr: Vec<u64> = (0..n as u64).map(|x| x * x + 5).collect();
        let sm = Tree::new(arr.clone());
        let root = sm.root();
        for i in 0..n {
            let p = sm.prove_index(i).unwrap();
            assert_eq!(p.index, i);
            assert_eq!(p.root, root);
            assert_eq!(p.leaf, Sha256Hasher::leaf(&arr[i]));
            assert_eq!(p.siblings.len(), ceil_log2(n));
            assert!(p.verify());
            assert!(verify_value_with_proof(&arr[i], &p));
        }
    }
}

#[test]
fn odd_length_31_height_is_five() {
    let arr: Vec<u64> = (100..131).collect();
    assert_eq!(arr.len(), 31);
    let sm = Tree::new(arr.clone());
    assert_eq!(sm.levels().len(), 6);
    let sizes: Vec<usize> = sm.levels().iter().map(|l| l.len()).collect();
    assert_eq!(sizes, vec![31, 16, 8, 4, 2, 1]);
    for i in 0..31 {
        let p = sm.prove_index(i).unwrap();
        assert_eq!(p.siblings.len(), 5);
        assert!(verify_value_with_proof(&arr[i], &p));
    }
}

#[test]
fn building_twice_gives_identical_roots() {
    let a: Vec<u32> = vec![5, 6, 7, 8, 9];
    let b: Vec<u32> = a.iter().map(|x| x + 0).collect();
    let ta = Tree::new(a);
    let tb = Tree::new(b);
    assert_eq!(ta.root(), tb.root());
    assert_eq!(ta.levels(), tb.levels());
    // items of another type with the same encodings give the same root
    let c: Vec<i32> = vec![5, 6, 7, 8, 9];
    assert_eq!(Tree::new(c).root(), ta.root());
    let d: Vec<Encoded> = (5u32..10).map(|x| Encoded { bytes: x.to_le_bytes().to_vec() }).collect();
    assert_eq!(Tree::new(d).root(), ta.root());
    // another order gives another root
    assert_ne!(Tree::new(vec![6u32, 5, 7, 8, 9]).root(), ta.root());
}

#[test]
fn index_out_of_bounds_is_reported() {
    let sm = Tree::new(vec![1u64, 2, 3]);
    assert_eq!(sm.prove_index(3).unwrap_err(), MerkleError::IndexOob);
    assert_eq!(sm.prove_index(usize::MAX).unwrap_err(), MerkleError::IndexOob);
    assert!(sm.prove_index(2).is_ok());
}

#[test]
fn value_lookup_failures_are_not_found() {
    let arr = vec![7u32, 1, 7, 2, 7, 3, 4, 7];
    let sm = Tree::new(arr);
    assert_eq!(sm.positions_of(&9), Vec::<usize>::new());
    assert_eq!(sm.prove_item(&9, None).unwrap_err(), MerkleError::NotFound);
    assert_eq!(sm.prove_item(&9, Some(0)).unwrap_err(), MerkleError::NotFound);
    assert_eq!(sm.prove_item(&7, Some(4)).unwrap_err(), MerkleError::NotFound);
    assert_eq!(sm.prove_item(&1, Some(1)).unwrap_err(), MerkleError::NotFound);
    assert_eq!(sm.prove_item(&7, Some(3)).unwrap().index, 7);
    assert_eq!(sm.prove_item(&7, Some(0)).unwrap().index, 0);
    assert_eq!(sm.prove_item(&4, None).unwrap().index, 6);
    assert_eq!(sm.positions_of(&1), vec![1]);
}

#[test]
fn index_entries_list_each_digest_once() {
    let arr = vec![7u32, 1, 7, 2, 7, 3, 4, 7];
    let sm = Tree::new(arr.clone());
    let entries = sm.index_entries();
    assert_eq!(entries.len(), 5);
    for (digest, positions) in entries.iter() {
        assert!(!positions.is_empty());
        for w in positions.windows(2) {
            assert!(w[0] < w[1]);
        }
        for i in 0..arr.len() {
            assert_eq!(positions.contains(&i), Sha256Hasher::leaf(&arr[i]) == *digest);
        }
    }
    assert_eq!(sm.items(), &arr);
}

#[test]
fn error_messages() {
    assert_eq!(MerkleError::IndexOob.message(), "index out of bounds");
    assert_eq!(MerkleError::NotFound.message(), "item not found in array");
}

#[test]
fn proof_accessors_return_root_and_leaf() {
    let sm = Tree::new(vec![10u64, 20, 30, 40]);
    let p = sm.prove_index(2).unwrap();
    assert_eq!(p.get_merkle_root(), sm.root());
    assert_eq!(p.get_leaf(), leaf_of(30));
}

#[test]
fn proof_is_bound_to_its_value() {
    let arr: Vec<u64> = (0..8).collect();
    let sm = Tree::new(arr);
    let p = sm.prove_index(3).unwrap();
    assert!(verify_value_with_proof(&3u64, &p));
    assert!(!verify_value_with_proof(&4u64, &p));
    // the same number in another width is another item
    assert!(!verify_value_with_proof(&3u32, &p));
}

#[test]
fn forged_proofs_do_not_verify() {
    let arr: Vec<u64> = (0..13).collect();
    let sm = Tree::new(arr);
    for i in 0..13 {
        let good = sm.prove_index(i).unwrap();
        assert!(good.verify());

        // another root
        let mut forged = good.clone();
        forged.root[5] ^= 0x10;
        assert!(!forged.verify());

        // another leaf
        let mut forged = good.clone();
        forged.leaf[0] ^= 1;
        assert!(!forged.verify());

        for k in 0..good.siblings.len() {
            // one bit of one sibling
            for bit in [0usize, 7, 100, 255] {
                let mut forged = good.clone();
                forged.siblings[k].0[bit / 8] ^= 1 << (bit % 8);
                assert!(!forged.verify());
            }
            // one side turned over, where the sibling is not the node itself
            let mut acc = good.leaf;
            for (sib, side) in &good.siblings[..k] {
                acc = match side {
                    Side::Left => node_of(sib, &acc),
                    Side::Right => node_of(&acc, sib),
                };
            }
            let mut forged = good.clone();
            forged.siblings[k].1 = match good.siblings[k].1 {
                Side::Left => Side::Right,
                Side::Right => Side::Left,
            };
            if good.siblings[k].0 != acc {
                assert!(!forged.verify());
            } else {
                assert!(forged.verify());
            }
        }

        // every side turned over, every sibling changed
        let mut forged = good.clone();
        for step in forged.siblings.iter_mut() {
            step.1 = match step.1 {
                Side::Left => Side::Right,
                Side::Right => Side::Left,
            };
        }
        assert!(!forged.verify());
        let mut forged = good.clone();
        for step in forged.siblings.iter_mut() {
            step.0[3] ^= 0x40;
        }
        assert!(!forged.verify());

        // two steps exchanged
        if good.siblings.len() >= 2 {
            let mut forged = good.clone();
            forged.siblings.swap(0, 1);
            assert!(!forged.verify());
        }
        // a step left out
        let mut forged = good.clone();
        forged.siblings.pop();
        assert!(!forged.verify());
    }
}

#[test]
fn handmade_proof_verifies_by_recomputation_only() {
    let leaf = leaf_of(1);
    let s0 = leaf_of(2);
    let s1 = leaf_of(3);
    let root = node_of(&s1, &node_of(&leaf, &s0));
    let p: MerkleProof<Sha256Hasher> = MerkleProof {
        index: 77,
        siblings: vec![(s0, Side::Right), (s1, Side::Left)],
        root,
        leaf,
    };
    assert!(p.verify());
    let q: MerkleProof<Sha256Hasher> = MerkleProof {
        index: 77,
        siblings: vec![(s0, Side::Left), (s1, Side::Left)],
        root,
        leaf,
    };
    assert!(!q.verify());
}

#[test]
fn tree_is_put_together_again_from_its_parts() {
    let arr: Vec<u64> = (0..25).collect();
    let sm = Tree::new(arr.clone());
    let root_before = sm.root();

    let bytes = bincode::serialize(&(sm.items(), sm.levels())).unwrap();
    let (items, levels): (Vec<u64>, Vec<Vec<[u8; 32]>>) = bincode::deserialize(&bytes).unwrap();
    let loaded = Tree::from_parts(items, levels).unwrap();

    assert_eq!(loaded.root(), root_before);
    let proof = loaded.prove_index(13).unwrap();
    assert!(verify_value_with_proof(&arr[13], &proof));
    assert_eq!(loaded.positions_of(&13), vec![13]);
}

#[test]
fn parts_that_do_not_belong_together_give_no_tree() {
    let arr: Vec<u64> = (0..6).collect();
    let sm = Tree::new(arr.clone());

    // no items
    assert!(Tree::<u64>::from_parts(vec![], vec![]).is_none());
    assert!(Tree::<u64>::from_parts(vec![], sm.levels().clone()).is_none());

    // other items
    let mut other = arr.clone();
    other[4] = 99;
    assert!(Tree::from_parts(other, sm.levels().clone()).is_none());

    // a changed digest
    let mut levels = sm.levels().clone();
    levels[1][0][0] ^= 1;
    assert!(Tree::from_parts(arr.clone(), levels).is_none());

    // a level too few, a level too many, a digest too many
    let mut levels = sm.levels().clone();
    levels.pop();
    assert!(Tree::from_parts(arr.clone(), levels).is_none());
    let mut levels = sm.levels().clone();
    levels.push(vec![sm.root()]);
    assert!(Tree::from_parts(arr.clone(), levels).is_none());
    let mut levels = sm.levels().clone();
    let last = *levels[0].last().unwrap();
    levels[0].push(last);
    assert!(Tree::from_parts(arr.clone(), levels).is_none());

    assert!(Tree::from_parts(arr.clone(), sm.levels().clone()).is_some());
}

#[test]
fn proof_survives_encoding_and_decoding() {
    let arr: Vec<u64> = (0..25).collect();
    let sm = Tree::new(arr.clone());
    let proof = sm.prove_index(13).unwrap();

    let sides: Vec<u8> = proof
        .siblings
        .iter()
        .map(|(_, s)| match s {
            Side::Left => 0u8,
            Side::Right => 1u8,
        })
        .collect();
    let digests: Vec<[u8; 32]> = proof.siblings.iter().map(|(d, _)| *d).collect();
    let bytes = bincode::serialize(&(proof.index, digests, sides, proof.root, proof.leaf)).unwrap();

    let (index, digests, sides, root, leaf): (usize, Vec<[u8; 32]>, Vec<u8>, [u8; 32], [u8; 32]) =
        bincode::deserialize(&bytes).unwrap();
    let loaded: MerkleProof<Sha256Hasher> = MerkleProof {
        index,
        siblings: digests
            .into_iter()
            .zip(sides)
            .map(|(d, s)| (d, if s == 0 { Side::Left } else { Side::Right }))
            .collect(),
        root,
        leaf,
    };
    assert_eq!(loaded.index, proof.index);
    assert_eq!(loaded.siblings, proof.siblings);
    assert_eq!(loaded.root, proof.root);
    assert_eq!(loaded.leaf, proof.leaf);
    assert_eq!(loaded.get_merkle_root(), sm.root());
    assert!(verify_value_with_proof(&arr[13], &loaded));
}
