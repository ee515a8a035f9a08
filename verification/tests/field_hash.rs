use sha2::Digest;
use static_merkle_array::field::FieldElement;
use static_merkle_array::hash_constants::{round_constant, MIMC_ROUNDS, MIMC_ROUND_CONSTANTS_110};
use static_merkle_array::mimc::mimc_hash_2;
use static_merkle_array::mimc_bn254_hasher::{MiMCBn254RuleHasher, ProductionRule, RuleMerkle};
use static_merkle_array::utils::{hex_to_fr, int_to_fr};
use static_merkle_array::{
    verify_value_with_proof, Encodable, Encoded, MerkleHasher, MerkleProof, Sha256Hasher, StaticMerkleArray,
};

const MODULUS: &str = "21888242871839275222246405745257275088548364400416034343698204186575808495617";
const MODULUS_MINUS_ONE: &str = "21888242871839275222246405745257275088548364400416034343698204186575808495616";
const MODULUS_PLUS_ONE: &str = "21888242871839275222246405745257275088548364400416034343698204186575808495618";

fn le32(x: u64) -> [u8; 32] {
    let mut out = [0u8; 32];
    out[..8].copy_from_slice(&x.to_le_bytes());
    out
}

fn sample_rules() -> Vec<ProductionRule> {
    vec![
        ProductionRule { parent: (true, 1), left_child: (false, 2), right_child: (true, 3) },
        ProductionRule { parent: (false, 10), left_child: (true, 11), right_child: (false, 12) },
        ProductionRule { parent: (true, 42), left_child: (true, 5), right_child: (false, 99) },
        ProductionRule { parent: (false, 7), left_child: (false, 8), right_child: (true, 9) },
        ProductionRule { parent: (true, 123456789), left_child: (false, 111), right_child: (true, 222) },
    ]
}

#[test]
fn field_element_from_small_numbers() {
    assert_eq!(FieldElement::from_u64(0).to_bytes_le(), [0u8; 32]);
    assert_eq!(FieldElement::from_u64(1).to_bytes_le(), le32(1));
    assert_eq!(FieldElement::from_u64(0x0102030405060708).to_bytes_le(), le32(0x0102030405060708));
    assert_eq!(FieldElement::from_u64(u64::MAX).to_bytes_le(), le32(u64::MAX));
}

#[test]
fn field_element_from_bytes_reduces_modulo_the_order() {
    // little endian and big endian read the same bytes in opposite order
    let mut le = [0u8; 32];
    le[0] = 0x34;
    le[1] = 0x12;
    let mut be = [0u8; 32];
    be[31] = 0x34;
    be[30] = 0x12;
    assert_eq!(FieldElement::from_le_bytes_mod_order(&le), FieldElement::from_u64(0x1234));
    assert_eq!(FieldElement::from_be_bytes_mod_order(&be), FieldElement::from_u64(0x1234));
    assert_eq!(FieldElement::from_le_bytes_mod_order(&[0x34, 0x12]), FieldElement::from_u64(0x1234));
    assert_eq!(FieldElement::from_be_bytes_mod_order(&[0x12, 0x34]), FieldElement::from_u64(0x1234));
    assert_eq!(FieldElement::from_le_bytes_mod_order(&[]), FieldElement::from_u64(0));
    assert_eq!(FieldElement::from_be_bytes_mod_order(&[]), FieldElement::from_u64(0));

    // 2^256 - 1 reduced
    let all = [0xffu8; 32];
    let expected = int_to_fr("6350874878119819312338956282401532410528162663560392320966563075034087161850");
    assert_eq!(FieldElement::from_le_bytes_mod_order(&all), expected);
    assert_eq!(FieldElement::from_be_bytes_mod_order(&all), expected);

    // the order itself is zero
    let order = num_bigint::BigUint::parse_bytes(MODULUS.as_bytes(), 10).unwrap();
    assert_eq!(FieldElement::from_be_bytes_mod_order(&order.to_bytes_be()), FieldElement::from_u64(0));
    assert_eq!(FieldElement::from_le_bytes_mod_order(&order.to_bytes_le()), FieldElement::from_u64(0));

    // more than 32 bytes
    let mut long = vec![0u8; 40];
    long[39] = 1; // 2^312 little endian
    let big = (num_bigint::BigUint::from(1u8) << 312usize) % &order;
    let mut want = big.to_bytes_le();
    want.resize(32, 0);
    assert_eq!(FieldElement::from_le_bytes_mod_order(&long).to_bytes_le().to_vec(), want);
}

#[test]
fn field_addition_wraps_at_the_order() {
    let a = FieldElement::from_u64(5);
    let b = FieldElement::from_u64(9);
    assert_eq!(a.plus(&b), FieldElement::from_u64(14));
    let top = int_to_fr(MODULUS_MINUS_ONE);
    assert_eq!(top.plus(&FieldElement::from_u64(1)), FieldElement::from_u64(0));
    assert_eq!(top.plus(&FieldElement::from_u64(3)), FieldElement::from_u64(2));
    assert_eq!(top.plus(&top), int_to_fr("21888242871839275222246405745257275088548364400416034343698204186575808495615"));
    assert_eq!(a.plus(&FieldElement::from_u64(0)), a);
}

#[test]
fn field_power() {
    let three = FieldElement::from_u64(3);
    assert_eq!(three.pow(0), FieldElement::from_u64(1));
    assert_eq!(three.pow(1), three);
    assert_eq!(three.pow(7), FieldElement::from_u64(2187));
    assert_eq!(FieldElement::from_u64(0).pow(0), FieldElement::from_u64(1));
    assert_eq!(FieldElement::from_u64(0).pow(5), FieldElement::from_u64(0));
    let two = FieldElement::from_u64(2);
    assert_eq!(two.pow(200), int_to_fr("1606938044258990275541962092341162602522202993782792835301376"));
    // Fermat: x^(p-1) = 1 cannot be asked with a u64 exponent, but (p-1)^2 = 1 can
    let top = int_to_fr(MODULUS_MINUS_ONE);
    assert_eq!(top.pow(2), FieldElement::from_u64(1));
    assert_eq!(top.pow(5), top);
}

#[test]
fn decimal_numerals() {
    assert_eq!(int_to_fr("0"), FieldElement::from_u64(0));
    assert_eq!(int_to_fr("7"), FieldElement::from_u64(7));
    assert_eq!(int_to_fr("12"), FieldElement::from_u64(12));
    assert_eq!(int_to_fr("007"), FieldElement::from_u64(7));
    assert_eq!(int_to_fr("0000"), FieldElement::from_u64(0));
    assert_eq!(int_to_fr("18446744073709551615"), FieldElement::from_u64(u64::MAX));
    assert_eq!(int_to_fr("256").to_bytes_le()[..2], [0u8, 1u8]);
    assert_eq!(int_to_fr(MODULUS), FieldElement::from_u64(0));
    assert_eq!(int_to_fr(MODULUS_PLUS_ONE), FieldElement::from_u64(1));
    // a numeral of more than 32 bytes
    let big = "1".to_string() + &"0".repeat(100);
    let order = num_bigint::BigUint::parse_bytes(MODULUS.as_bytes(), 10).unwrap();
    let want = num_bigint::BigUint::parse_bytes(big.as_bytes(), 10).unwrap() % order;
    let mut bytes = want.to_bytes_le();
    bytes.resize(32, 0);
    assert_eq!(int_to_fr(&big).to_bytes_le().to_vec(), bytes);
}

#[test]
fn hexadecimal_numerals() {
    assert_eq!(hex_to_fr("0x1f"), FieldElement::from_u64(31));
    assert_eq!(hex_to_fr("1f"), FieldElement::from_u64(31));
    assert_eq!(hex_to_fr("1F"), FieldElement::from_u64(31));
    assert_eq!(hex_to_fr("0x0x1f"), FieldElement::from_u64(31));
    assert_eq!(hex_to_fr("f"), FieldElement::from_u64(15));
    assert_eq!(hex_to_fr("0xabc"), FieldElement::from_u64(0xabc));
    assert_eq!(hex_to_fr("0xAbC"), FieldElement::from_u64(0xabc));
    assert_eq!(hex_to_fr(""), FieldElement::from_u64(0));
    assert_eq!(hex_to_fr("0x"), FieldElement::from_u64(0));
    assert_eq!(hex_to_fr("0"), FieldElement::from_u64(0));
    assert_eq!(hex_to_fr("0xffffffffffffffff"), FieldElement::from_u64(u64::MAX));
    assert_eq!(
        hex_to_fr("0x30644e72e131a029b85045b68181585d2833e84879b9709143e1f593f0000000"),
        int_to_fr(MODULUS_MINUS_ONE)
    );
    assert_eq!(
        hex_to_fr("30644e72e131a029b85045b68181585d2833e84879b9709143e1f593f0000001"),
        FieldElement::from_u64(0)
    );
    // 80 digits: longer than the field, reduced
    assert_eq!(
        hex_to_fr(&"ab".repeat(40)),
        int_to_fr("14752406207569514432918193765381648143960573205368723129134905731863753831155")
    );
}

#[test]
fn round_constants_follow_their_sha256_chain() {
    assert_eq!(MIMC_ROUNDS, 110);
    assert_eq!(MIMC_ROUND_CONSTANTS_110.len(), 110);
    let order = num_bigint::BigUint::parse_bytes(MODULUS.as_bytes(), 10).unwrap();
    let mut link: [u8; 32] = sha2::Sha256::digest(b"mimc-bn254-fr-x5-110").into();
    for i in 0..MIMC_ROUNDS {
        let value = num_bigint::BigUint::from_bytes_be(&link) % &order;
        let mut be = value.to_bytes_be();
        while be.len() < 32 {
            be.insert(0, 0);
        }
        assert_eq!(MIMC_ROUND_CONSTANTS_110[i].to_vec(), be);
        assert_eq!(round_constant(i), int_to_fr(&value.to_string()));
        link = sha2::Sha256::digest(link).into();
    }
    assert_eq!(
        round_constant(0),
        int_to_fr("2517347066840003155268776929952510537323682248181308744088851635138093236948")
    );
    assert_eq!(
        round_constant(109),
        int_to_fr("4674771539242510848388083995942019076209334960812030328321841657922533740289")
    );
}

#[test]
fn mimc_hash_of_known_inputs() {
    let h = mimc_hash_2(FieldElement::from_u64(1), FieldElement::from_u64(2));
    assert_eq!(h, int_to_fr("14713675708267862208129478874649300919438907088826660104475933155330293134241"));
    let zero = mimc_hash_2(FieldElement::from_u64(0), FieldElement::from_u64(0));
    assert_eq!(zero, int_to_fr("11012613680144302225354348768412824171816182966156416751696269410657945083460"));
    // the state starts as the sum, so inputs with one sum hash alike
    let top = int_to_fr(MODULUS_MINUS_ONE);
    assert_eq!(mimc_hash_2(top, FieldElement::from_u64(1)), zero);
    assert_eq!(mimc_hash_2(FieldElement::from_u64(2), FieldElement::from_u64(1)), h);
}

#[test]
fn mimc_hash_is_the_rounds_one_by_one() {
    let a = FieldElement::from_u64(77);
    let b = int_to_fr("123456789012345678901234567890");
    let mut x = a.plus(&b);
    for i in 0..MIMC_ROUNDS {
        x = x.plus(&round_constant(i)).pow(5);
    }
    assert_eq!(mimc_hash_2(a, b), x);
}

#[test]
fn rule_encoding_is_flag_byte_and_eight_bytes_three_times() {
    let rule = ProductionRule { parent: (true, 1), left_child: (false, 2), right_child: (true, 3) };
    let expected: Vec<u8> = vec![
        0x01, 0x01, 0x00, 0x00, 0x00, 0x00, 0x00, 0x00, 0x00, 0x00, 0x02, 0x00, 0x00, 0x00, 0x00, 0x00, 0x00,
        0x00, 0x01, 0x03, 0x00, 0x00, 0x00, 0x00, 0x00, 0x00, 0x00,
    ];
    assert_eq!(rule.encode(), expected);
    let rule = ProductionRule {
        parent: (false, u64::MAX),
        left_child: (true, 0x0102030405060708),
        right_child: (false, 0),
    };
    let mut expected = vec![0u8];
    expected.extend_from_slice(&[0xff; 8]);
    expected.push(1);
    expected.extend_from_slice(&[8, 7, 6, 5, 4, 3, 2, 1]);
    expected.push(0);
    expected.extend_from_slice(&[0; 8]);
    assert_eq!(rule.encode(), expected);
}

#[test]
fn rule_leaf_has_known_digest() {
    let rule = ProductionRule { parent: (true, 1), left_child: (false, 2), right_child: (true, 3) };
    let expected: [u8; 32] = [
        0x9e, 0x9a, 0x76, 0x34, 0xd3, 0x2b, 0x1c, 0x8b, 0xae, 0x54, 0x88, 0x1e, 0xed, 0x9f, 0x56, 0xd9, 0xe1,
        0x6d, 0xc0, 0xfd, 0x2f, 0x05, 0xbd, 0x62, 0x78, 0xab, 0x42, 0x12, 0x08, 0xb0, 0x4d, 0x0c,
    ];
    assert_eq!(MiMCBn254RuleHasher::leaf(&rule), expected);

    // the six numbers, absorbed one by one from the leaf domain
    let mut h = FieldElement::from_u64(0xA5);
    for m in [1u64, 1, 0, 2, 1, 3] {
        h = mimc_hash_2(h, FieldElement::from_u64(m));
    }
    assert_eq!(h.to_bytes_le(), expected);
}

#[test]
fn leaf_of_other_items_is_hashed_block_by_block() {
    let expected: [u8; 32] = [
        0xee, 0x34, 0xf9, 0x99, 0xac, 0xb1, 0x49, 0x3f, 0xf7, 0x83, 0x9d, 0xea, 0xa9, 0x9f, 0x42, 0xd5, 0x51,
        0x5f, 0xfd, 0x37, 0xea, 0x1b, 0x1c, 0x46, 0x04, 0xd2, 0x4f, 0xfa, 0x99, 0x47, 0x15, 0x1f,
    ];
    assert_eq!(MiMCBn254RuleHasher::leaf(&7u64), expected);
    assert_eq!(
        mimc_hash_2(FieldElement::from_u64(0xA5), FieldElement::from_u64(7)).to_bytes_le(),
        expected
    );

    // 40 bytes that start with no rule: one full block and one of 8 bytes
    let bytes: Vec<u8> = (1u8..=40).collect();
    let expected: [u8; 32] = [
        0x24, 0xaf, 0x0f, 0x24, 0x9a, 0xa2, 0xd7, 0xbf, 0x41, 0x49, 0x73, 0xec, 0x02, 0x08, 0x28, 0x3d, 0x57,
        0x51, 0x4a, 0x72, 0x33, 0x1a, 0xd4, 0x28, 0x17, 0x26, 0x8e, 0x42, 0xbb, 0x03, 0x09, 0x05,
    ];
    assert_eq!(MiMCBn254RuleHasher::leaf(&Encoded { bytes: bytes.clone() }), expected);
    let first = FieldElement::from_le_bytes_mod_order(&bytes[..32]);
    let second = FieldElement::from_le_bytes_mod_order(&bytes[32..]);
    let h = mimc_hash_2(mimc_hash_2(FieldElement::from_u64(0xA5), first), second);
    assert_eq!(h.to_bytes_le(), expected);

    // no bytes at all: the leaf domain itself
    assert_eq!(MiMCBn254RuleHasher::leaf(&Encoded { bytes: vec![] }), le32(0xA5));
}

#[test]
fn bytes_that_start_with_a_rule_are_hashed_as_that_rule() {
    let rule = ProductionRule { parent: (true, 1), left_child: (false, 2), right_child: (true, 3) };
    let digest = MiMCBn254RuleHasher::leaf(&rule);
    let mut bytes = rule.encode();
    assert_eq!(MiMCBn254RuleHasher::leaf(&Encoded { bytes: bytes.clone() }), digest);
    // what follows the rule is not read
    bytes.extend_from_slice(&[9, 9, 9]);
    assert_eq!(MiMCBn254RuleHasher::leaf(&Encoded { bytes: bytes.clone() }), digest);

    // a flag byte that is neither 0 nor 1: no rule, so blocks
    let mut other = rule.encode();
    other[9] = 2;
    let blocks = mimc_hash_2(FieldElement::from_u64(0xA5), FieldElement::from_le_bytes_mod_order(&other));
    assert_eq!(MiMCBn254RuleHasher::leaf(&Encoded { bytes: other }), blocks.to_bytes_le());

    // one byte short of a rule: no rule, so blocks
    let short = rule.encode()[..26].to_vec();
    let blocks = mimc_hash_2(FieldElement::from_u64(0xA5), FieldElement::from_le_bytes_mod_order(&short));
    assert_eq!(MiMCBn254RuleHasher::leaf(&Encoded { bytes: short }), blocks.to_bytes_le());
}

#[test]
fn field_node_has_known_digest() {
    let rule = ProductionRule { parent: (true, 1), left_child: (false, 2), right_child: (true, 3) };
    let l = MiMCBn254RuleHasher::leaf(&rule);
    let r = MiMCBn254RuleHasher::leaf(&7u64);
    let expected: [u8; 32] = [
        0x69, 0x3a, 0x19, 0x2a, 0xed, 0xde, 0x82, 0x31, 0x45, 0x61, 0xc8, 0x2c, 0x07, 0xde, 0xd4, 0x26, 0xe0,
        0x74, 0xfb, 0x88, 0x81, 0x38, 0x34, 0xf3, 0x3b, 0x50, 0x03, 0x0b, 0x73, 0xc0, 0x17, 0x0d,
    ];
    assert_eq!(MiMCBn254RuleHasher::node(&l, &r), expected);
    assert_ne!(MiMCBn254RuleHasher::node(&r, &l), expected);

    // digests above the order are reduced before they are absorbed
    let expected: [u8; 32] = [
        0x39, 0x7e, 0x66, 0x4a, 0x94, 0xfc, 0x75, 0x54, 0x38, 0x1e, 0x5a, 0xfa, 0x5d, 0x13, 0x7f, 0x66, 0x7f,
        0x38, 0xda, 0xf8, 0x5d, 0x45, 0x53, 0xf8, 0x80, 0x4b, 0x44, 0xbe, 0xef, 0xa5, 0xe8, 0x2e,
    ];
    assert_eq!(MiMCBn254RuleHasher::node(&[0xff; 32], &[0; 32]), expected);

    // leaf and node domains differ
    let leaf_like = mimc_hash_2(
        mimc_hash_2(FieldElement::from_u64(0xA5), FieldElement::from_le_bytes_mod_order(&l)),
        FieldElement::from_le_bytes_mod_order(&r),
    );
    assert_ne!(MiMCBn254RuleHasher::node(&l, &r), leaf_like.to_bytes_le());

    assert!(MiMCBn254RuleHasher::same_digest(&l, &l));
    assert!(!MiMCBn254RuleHasher::same_digest(&l, &r));
}

#[test]
fn rule_tree_roots_have_known_values() {
    let rules = sample_rules();
    let five: RuleMerkle = StaticMerkleArray::new(rules.clone());
    let expected: [u8; 32] = [
        0xbf, 0xd1, 0x5b, 0xc8, 0xa4, 0x7b, 0xd9, 0x11, 0x8b, 0xaa, 0xa3, 0xe2, 0x26, 0x37, 0x0e, 0x45, 0x53,
        0x3e, 0x22, 0x63, 0x7f, 0x84, 0xe3, 0xf0, 0x74, 0xc9, 0x30, 0xab, 0xc6, 0xc7, 0x67, 0x11,
    ];
    assert_eq!(five.root(), expected);
    let four: RuleMerkle = StaticMerkleArray::new(rules[..4].to_vec());
    let expected: [u8; 32] = [
        0x22, 0x6d, 0x1d, 0xd6, 0x00, 0x31, 0x3d, 0x58, 0xb4, 0xb1, 0x4f, 0xe4, 0xf8, 0x9a, 0xfd, 0x4e, 0x12,
        0x33, 0x3b, 0x30, 0x01, 0x39, 0xec, 0xa3, 0x28, 0x28, 0xcb, 0x12, 0x9b, 0xb0, 0xa7, 0x28,
    ];
    assert_eq!(four.root(), expected);
}

#[test]
fn rule_tree_every_index_proves() {
    let rules = sample_rules();
    let sm: RuleMerkle = StaticMerkleArray::new(rules.clone());
    for i in 0..rules.len() {
        let p = sm.prove_index(i).unwrap();
        assert_eq!(p.siblings.len(), 3);
        assert!(p.verify());
        assert!(verify_value_with_proof(&rules[i], &p));
        assert_eq!(sm.positions_of(&rules[i]), vec![i]);
        assert_eq!(sm.prove_item(&rules[i], None).unwrap().index, i);
    }
    let absent = ProductionRule { parent: (true, 2), left_child: (false, 2), right_child: (true, 3) };
    assert!(sm.positions_of(&absent).is_empty());
}

#[test]
fn rule_tree_is_put_together_again_from_its_parts() {
    let rules = sample_rules();
    let before: RuleMerkle = StaticMerkleArray::new(rules.clone());
    let root_before = before.root();

    let plain: Vec<((bool, u64), (bool, u64), (bool, u64))> =
        before.items().iter().map(|r| (r.parent, r.left_child, r.right_child)).collect();
    let bytes = bincode::serialize(&(plain, before.levels())).unwrap();
    let (plain, levels): (Vec<((bool, u64), (bool, u64), (bool, u64))>, Vec<Vec<[u8; 32]>>) =
        bincode::deserialize(&bytes).unwrap();
    let items: Vec<ProductionRule> = plain
        .into_iter()
        .map(|(parent, left_child, right_child)| ProductionRule { parent, left_child, right_child })
        .collect();
    let after: RuleMerkle = StaticMerkleArray::from_parts(items, levels).unwrap();

    assert_eq!(after.root(), root_before);
    for &i in &[0usize, rules.len() - 1] {
        let proof = after.prove_index(i).unwrap();
        assert!(proof.verify());
        assert!(verify_value_with_proof(&rules[i], &proof));
    }
}

#[test]
fn the_two_hashers_give_unrelated_trees() {
    let arr: Vec<u64> = (0..9).collect();
    let by_bytes: StaticMerkleArray<u64, Sha256Hasher> = StaticMerkleArray::new(arr.clone());
    let by_field: StaticMerkleArray<u64, MiMCBn254RuleHasher> = StaticMerkleArray::new(arr.clone());
    assert_ne!(by_bytes.root(), by_field.root());

    let rules = sample_rules();
    let rules_by_bytes: StaticMerkleArray<ProductionRule, Sha256Hasher> = StaticMerkleArray::new(rules.clone());
    let rules_by_field: RuleMerkle = StaticMerkleArray::new(rules.clone());
    assert_ne!(rules_by_bytes.root(), rules_by_field.root());

    for i in 0..arr.len() {
        let p = by_bytes.prove_index(i).unwrap();
        let q = by_field.prove_index(i).unwrap();
        assert!(p.verify());
        assert!(q.verify());
        assert_ne!(p.leaf, q.leaf);

        // a proof of one hasher, read under the other
        let p_as_field: MerkleProof<MiMCBn254RuleHasher> =
            MerkleProof { index: p.index, siblings: p.siblings.clone(), root: p.root, leaf: p.leaf };
        let q_as_bytes: MerkleProof<Sha256Hasher> =
            MerkleProof { index: q.index, siblings: q.siblings.clone(), root: q.root, leaf: q.leaf };
        assert!(!p_as_field.verify());
        assert!(!q_as_bytes.verify());
        assert!(!verify_value_with_proof(&arr[i], &p_as_field));
        assert!(!verify_value_with_proof(&arr[i], &q_as_bytes));
    }
}
