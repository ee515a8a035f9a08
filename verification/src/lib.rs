//! A binding commitment to an ordered array of values, with membership
//! proofs that can be checked without the array.
//!
//! The engine is generic over a [`MerkleHasher`], which says how an item
//! becomes a leaf digest and how two digests combine into their parent.

pub mod array;
pub mod bytes;
pub mod encoding;
pub mod field;
pub mod hash_constants;
pub mod hasher;
pub mod laws;
pub mod merkle_proof;
pub mod mimc;
pub mod mimc_bn254_hasher;
pub mod sha256_hasher;
pub mod tree;
pub mod utils;

pub use crate::array::{MerkleError, StaticMerkleArray};
pub use crate::encoding::Encoded;
pub use crate::hasher::{Encodable, MerkleHasher};
pub use crate::merkle_proof::{verify_value_with_proof, MerkleProof, Side};
pub use crate::sha256_hasher::Sha256Hasher;
