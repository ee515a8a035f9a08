//! The round constants of the MiMC permutation over the BN254 scalar field.
//!
//! The table is fixed and public. Its entries come from a SHA-256 chain that
//! starts at the digest of the ASCII string `mimc-bn254-fr-x5-110`: each
//! digest, read as a big-endian number and reduced modulo the field order,
//! is one constant, and its own digest is the next link.

use vstd::prelude::*;
use crate::bytes::be_value;
use crate::field::{modulus, FieldElement};

verus! {

/// The number of rounds of the permutation.
pub const MIMC_ROUNDS: usize = 110;

/// The round constants, each as 32 bytes, most significant first.
pub const MIMC_ROUND_CONSTANTS_110: [[u8; 32]; 110] = [
    [0x05, 0x90, 0xc4, 0x98, 0x3c, 0xc4, 0xdb, 0x3a, 0xe5, 0x12, 0x3f, 0xe0, 0x4b, 0x4e, 0x9c, 0x21, 0x38, 0x5a, 0x30, 0xc7, 0x7f, 0xc5, 0x91, 0x63, 0x7e, 0xc2, 0x0a, 0xad, 0xa3, 0xa9, 0xc2, 0xd4],
    [0x11, 0x50, 0xa5, 0xf8, 0x14, 0x11, 0x57, 0xd3, 0x20, 0x8a, 0xf7, 0x71, 0x66, 0xb7, 0x0d, 0x74, 0x49, 0xb0, 0x50, 0xed, 0x13, 0x34, 0x26, 0xcf, 0x22, 0x36, 0xd7, 0xf2, 0x8a, 0x47, 0xd7, 0xf7],
    [0x30, 0x1e, 0x4a, 0x52, 0xf0, 0xe3, 0x81, 0x0a, 0x47, 0x75, 0xec, 0xe9, 0x58, 0x27, 0x61, 0x73, 0x2a, 0x73, 0x77, 0xd5, 0x99, 0x0f, 0x38, 0x3f, 0xb5, 0x07, 0x5e, 0x5a, 0x41, 0xe3, 0xdf, 0x35],
    [0x21, 0x0a, 0x58, 0x53, 0x57, 0x39, 0xc7, 0xe1, 0xa7, 0x92, 0xd6, 0xf6, 0x54, 0x47, 0xd9, 0xa3, 0xd1, 0x5a, 0x68, 0x7a, 0x7d, 0x50, 0x4b, 0x4c, 0x4a, 0x35, 0x1f, 0x98, 0x6d, 0x15, 0x44, 0x28],
    [0x20, 0xe9, 0xd0, 0x64, 0xbb, 0x60, 0x38, 0xf1, 0x51, 0x9d, 0x54, 0xb4, 0x5a, 0xd6, 0x8e, 0x3b, 0xb3, 0xac, 0x88, 0x3e, 0xfc, 0xe9, 0x4b, 0x19, 0xcc, 0x2a, 0xbc, 0x9c, 0x8f, 0xae, 0x7d, 0xa5],
    [0x0b, 0x3f, 0x67, 0x12, 0x79, 0x20, 0xcb, 0x21, 0x61, 0x34, 0xc0, 0xe0, 0xd6, 0x40, 0xa0, 0xe8, 0x86, 0x97, 0x0e, 0xaa, 0x3c, 0x10, 0xe4, 0xc0, 0x1c, 0x05, 0xfa, 0x53, 0xf0, 0xfb, 0x42, 0xdd],
    [0x10, 0x6c, 0x20, 0x6c, 0x6f, 0xb7, 0xd9, 0x92, 0x8e, 0xb2, 0xe4, 0x8b, 0xe5, 0x21, 0x3c, 0x67, 0x77, 0x5c, 0xe5, 0x7e, 0x74, 0x13, 0xd7, 0x13, 0x25, 0x7c, 0xc2, 0x8d, 0x72, 0x3b, 0x2f, 0x97],
    [0x17, 0xab, 0x72, 0xcf, 0x4c, 0xb7, 0x8c, 0x60, 0x80, 0xaf, 0x82, 0xe9, 0xb3, 0xba, 0x79, 0x1d, 0x56, 0xe6, 0x6a, 0xdb, 0x13, 0xec, 0xb0, 0x49, 0x40, 0xc2, 0xde, 0x88, 0xc7, 0x1a, 0xb1, 0x96],
    [0x1f, 0xa5, 0xc0, 0x02, 0x32, 0x14, 0x1c, 0xb0, 0x56, 0xf4, 0xfc, 0x6e, 0xce, 0xd4, 0x78, 0xd4, 0x69, 0x1f, 0xf8, 0x2c, 0xaf, 0xe4, 0x71, 0x50, 0x79, 0x83, 0x50, 0x0e, 0xeb, 0xd9, 0x29, 0x12],
    [0x04, 0xe4, 0x2d, 0xcb, 0x0e, 0xf1, 0x0b, 0xdc, 0x1f, 0x64, 0x7d, 0xea, 0x34, 0xa7, 0x69, 0x1b, 0x6a, 0xf4, 0xf7, 0xb1, 0x5a, 0x27, 0xa3, 0x95, 0xf5, 0xbc, 0x60, 0x4d, 0x21, 0xd1, 0x11, 0x93],
    [0x27, 0x9a, 0x3d, 0xd4, 0xde, 0x21, 0xfd, 0x09, 0x79, 0x79, 0x0c, 0x89, 0x4f, 0xfc, 0xcc, 0xd7, 0x3d, 0x7b, 0x0d, 0xee, 0x6d, 0xab, 0x47, 0xf6, 0x43, 0x21, 0x59, 0xdc, 0x8d, 0xc0, 0x9a, 0x1b],
    [0x2e, 0xaf, 0xf5, 0x26, 0xcc, 0x25, 0x93, 0x15, 0x19, 0xf3, 0x32, 0x84, 0xcc, 0x8b, 0x18, 0x25, 0xc2, 0xa3, 0x45, 0x0b, 0x5f, 0x3d, 0x5b, 0x70, 0xd5, 0x7a, 0x5c, 0x34, 0x06, 0x0a, 0xce, 0x83],
    [0x0d, 0x5b, 0xe8, 0x07, 0xbe, 0xae, 0x0a, 0xac, 0x5e, 0x6d, 0xb8, 0x43, 0x78, 0xe7, 0xf5, 0xc1, 0x7d, 0x61, 0x40, 0x06, 0x46, 0x49, 0xbf, 0x13, 0xea, 0x45, 0xd9, 0x3e, 0xa2, 0xa1, 0x23, 0x4b],
    [0x11, 0x5c, 0xeb, 0xa8, 0x28, 0x05, 0x00, 0x64, 0x94, 0xa7, 0x36, 0xfb, 0x3d, 0xa0, 0x50, 0x7d, 0x7a, 0x88, 0x9f, 0xf3, 0xaa, 0x8d, 0x36, 0x15, 0x5d, 0x92, 0xf1, 0xda, 0x54, 0x66, 0xd2, 0x99],
    [0x2a, 0xf6, 0xef, 0x5a, 0xed, 0x6c, 0x0e, 0x6a, 0x0b, 0xdd, 0x81, 0x2f, 0xfd, 0x8b, 0x5b, 0x14, 0xa6, 0xed, 0x11, 0xe2, 0x41, 0x96, 0x58, 0x5c, 0xf7, 0xb8, 0xbb, 0x35, 0x9e, 0x74, 0xca, 0xa2],
    [0x06, 0xf1, 0x9c, 0x89, 0x97, 0x7d, 0x65, 0x55, 0x4c, 0x28, 0x6e, 0x71, 0x0a, 0xbc, 0xfa, 0xfc, 0x6d, 0x32, 0x96, 0x26, 0x28, 0x7b, 0x3e, 0xce, 0x95, 0x0a, 0xca, 0x78, 0xc7, 0xd6, 0x56, 0x94],
    [0x19, 0x0b, 0xe6, 0x59, 0x73, 0xcd, 0x69, 0x6e, 0x67, 0x05, 0x12, 0x9c, 0x9c, 0x60, 0xc0, 0x58, 0x77, 0x0a, 0xd4, 0x1b, 0xa8, 0xff, 0xed, 0x56, 0x1c, 0xb5, 0x8c, 0xc3, 0x68, 0x76, 0x97, 0x12],
    [0x1f, 0xae, 0xb9, 0xf7, 0x4b, 0xea, 0x42, 0x9c, 0x1a, 0x52, 0x47, 0xef, 0x25, 0x0f, 0x92, 0xe7, 0x13, 0x11, 0xf7, 0xe4, 0xeb, 0xf5, 0x34, 0xbd, 0x87, 0xef, 0x61, 0x56, 0x48, 0x37, 0xc4, 0x92],
    [0x0b, 0x2c, 0xb3, 0x02, 0x11, 0x60, 0x13, 0x14, 0xb4, 0xfa, 0xc6, 0x3b, 0x5b, 0x96, 0x3e, 0xd7, 0x67, 0x7d, 0xf5, 0x18, 0xda, 0xb0, 0xa7, 0x1e, 0x48, 0xa5, 0xcb, 0xd9, 0x09, 0xec, 0x82, 0x10],
    [0x02, 0x7f, 0x10, 0xd8, 0xd7, 0xd1, 0x71, 0x69, 0xb4, 0x68, 0x39, 0x7c, 0xeb, 0x72, 0x5f, 0x2f, 0x13, 0x96, 0xb0, 0x8c, 0x9b, 0x73, 0x81, 0xe6, 0x78, 0x59, 0x11, 0x15, 0x71, 0xb6, 0xa9, 0x63],
    [0x09, 0xe7, 0xce, 0x21, 0x5c, 0x53, 0x2c, 0x7a, 0xe2, 0x45, 0xb7, 0xf5, 0x6a, 0xd5, 0x8d, 0x94, 0x6e, 0x07, 0x4f, 0x72, 0xca, 0x5a, 0xa9, 0x64, 0x17, 0x4d, 0x2b, 0x47, 0xd4, 0xdd, 0x29, 0xb3],
    [0x16, 0xeb, 0xb6, 0xa3, 0x76, 0xf0, 0x57, 0x7f, 0xcb, 0x54, 0xe9, 0xf0, 0x80, 0xf5, 0xfe, 0xf3, 0xa3, 0x94, 0x5a, 0x24, 0xc2, 0xbd, 0x31, 0x34, 0xcb, 0xb3, 0x4f, 0x49, 0x61, 0xed, 0x68, 0x6d],
    [0x03, 0x98, 0x42, 0x9a, 0x8d, 0x14, 0x56, 0xad, 0x11, 0x99, 0x05, 0xb1, 0x74, 0x8a, 0x7a, 0xeb, 0x75, 0xfb, 0xf7, 0x91, 0xa5, 0x78, 0x6a, 0x9a, 0xaf, 0x75, 0xd8, 0x1c, 0xe9, 0xcb, 0x87, 0x54],
    [0x28, 0x0d, 0x95, 0x9a, 0x81, 0x40, 0xee, 0xf6, 0x80, 0xe1, 0x23, 0x5a, 0x52, 0x66, 0xd7, 0xb5, 0xf1, 0xb8, 0xda, 0xac, 0x53, 0xdb, 0xa5, 0xf0, 0x70, 0xf1, 0x6c, 0xc1, 0xaf, 0x67, 0xce, 0x66],
    [0x1e, 0xb1, 0xcd, 0x24, 0xb2, 0x76, 0x7d, 0xf2, 0x66, 0x2a, 0xf1, 0x2e, 0xab, 0xbe, 0xc0, 0xd4, 0xcd, 0xc7, 0x33, 0x15, 0xf2, 0x32, 0x89, 0x10, 0x96, 0x3a, 0xe6, 0x09, 0x06, 0x4e, 0xe3, 0xfc],
    [0x14, 0x9f, 0xb6, 0xd7, 0x51, 0xf6, 0xe9, 0x97, 0x5c, 0xa4, 0x57, 0x30, 0x10, 0x69, 0x6f, 0xe5, 0xd9, 0x4b, 0xf3, 0x6d, 0xe7, 0xbf, 0xb0, 0x29, 0xb6, 0xc2, 0xdf, 0xe8, 0x5b, 0x80, 0x65, 0x4f],
    [0x25, 0x18, 0x7e, 0xe6, 0x40, 0x88, 0x9a, 0x82, 0x44, 0x9e, 0xff, 0xfa, 0x1e, 0x85, 0x51, 0x52, 0x5a, 0xa6, 0xad, 0x7b, 0xef, 0x52, 0xaf, 0xe3, 0x86, 0x0d, 0xd7, 0x5b, 0xec, 0x4a, 0xd4, 0x33],
    [0x0c, 0xea, 0x78, 0x63, 0xfb, 0xae, 0xc9, 0x7a, 0xdc, 0xd4, 0x91, 0x57, 0x96, 0xf9, 0x25, 0x0d, 0x0e, 0x40, 0x52, 0x32, 0xcc, 0xf2, 0x3f, 0xbe, 0x1f, 0x93, 0xef, 0x61, 0x28, 0xd4, 0xcd, 0xad],
    [0x19, 0x8b, 0x5a, 0x3a, 0x93, 0x6b, 0x96, 0xee, 0x49, 0x01, 0x83, 0x56, 0xd5, 0xec, 0x7e, 0xec, 0x47, 0xc5, 0x36, 0xcd, 0xda, 0x22, 0x76, 0x5f, 0x78, 0x8c, 0xb6, 0x0e, 0xeb, 0x30, 0x40, 0x3d],
    [0x05, 0xae, 0xe1, 0x30, 0x36, 0x90, 0x4c, 0xf2, 0x3a, 0xcf, 0xf1, 0xf1, 0x00, 0x7f, 0x1c, 0x4a, 0x87, 0x54, 0x8a, 0x15, 0x6d, 0x1d, 0x11, 0x6f, 0xd8, 0x26, 0x0a, 0xfd, 0x48, 0xe0, 0x49, 0xc2],
    [0x29, 0x64, 0x96, 0x24, 0xe0, 0x1b, 0x67, 0xd8, 0xb7, 0xd4, 0xc0, 0x50, 0x91, 0xb6, 0xdd, 0x4d, 0x1f, 0x35, 0xb3, 0xc5, 0xd9, 0x45, 0x37, 0x36, 0x07, 0xb0, 0xc4, 0x6b, 0x60, 0x39, 0x39, 0x27],
    [0x25, 0x6b, 0x89, 0xde, 0x54, 0x64, 0x60, 0x8f, 0xc9, 0xef, 0x8b, 0xab, 0x29, 0xc3, 0x35, 0x5e, 0xb9, 0x31, 0xfb, 0x1d, 0x1c, 0xe5, 0x09, 0x9b, 0x2b, 0xdf, 0xf8, 0xb2, 0xd9, 0x43, 0xdf, 0x8b],
    [0x1f, 0x0f, 0x64, 0x87, 0xce, 0x24, 0xa0, 0x46, 0x89, 0xca, 0xe4, 0x8b, 0x9e, 0x86, 0xc0, 0xd5, 0x11, 0xb9, 0x18, 0xe2, 0xf8, 0xec, 0x7d, 0x80, 0x5a, 0x08, 0xd3, 0xcb, 0xe6, 0xd8, 0x2b, 0x37],
    [0x0d, 0x8c, 0xf8, 0x92, 0xb3, 0xff, 0xfa, 0x39, 0x67, 0x5a, 0x23, 0x53, 0xc0, 0x81, 0x34, 0x91, 0x64, 0x6f, 0x57, 0x50, 0xd3, 0xfa, 0xa1, 0xe2, 0x99, 0xe4, 0xae, 0xc7, 0xab, 0xce, 0x45, 0x89],
    [0x10, 0x0b, 0xdc, 0x91, 0x45, 0x22, 0x76, 0x82, 0x00, 0x85, 0xad, 0xfa, 0x9f, 0x36, 0xa9, 0xe8, 0x67, 0xcf, 0xdf, 0x02, 0x90, 0x68, 0xa5, 0xbc, 0xb7, 0x88, 0xa6, 0x46, 0x5e, 0x76, 0xe1, 0xb4],
    [0x07, 0xab, 0x55, 0xc3, 0xd2, 0x1b, 0xc3, 0xfa, 0x6b, 0x35, 0xad, 0x42, 0x20, 0x99, 0x45, 0x84, 0x68, 0x3e, 0x5c, 0x37, 0x9c, 0x0b, 0xd7, 0x57, 0x87, 0x5d, 0xb1, 0x75, 0x7d, 0x5e, 0x5b, 0x53],
    [0x0c, 0xcd, 0xbd, 0x2b, 0x12, 0xd8, 0xe0, 0xb9, 0x49, 0xe8, 0x63, 0x64, 0xf5, 0x64, 0xe3, 0xb3, 0x03, 0xde, 0x49, 0x68, 0xf9, 0x14, 0x6e, 0x58, 0xa2, 0xad, 0xd6, 0xb3, 0xec, 0xde, 0xc6, 0xca],
    [0x24, 0xcb, 0xdd, 0xac, 0xdb, 0xb5, 0x73, 0x73, 0x9b, 0xaf, 0x02, 0x1f, 0x8e, 0x40, 0x2a, 0xb8, 0x17, 0x74, 0x08, 0xaa, 0xb3, 0x0a, 0x6d, 0x9f, 0xf1, 0x8b, 0xca, 0x88, 0x60, 0x54, 0xd0, 0xe1],
    [0x27, 0x5d, 0x1e, 0x6f, 0x1a, 0x7f, 0x23, 0x97, 0x25, 0xe2, 0x36, 0xee, 0x02, 0xf8, 0xee, 0x11, 0xdc, 0x15, 0xc7, 0x5e, 0x8e, 0x30, 0x54, 0x3d, 0x68, 0x3b, 0x2a, 0xd8, 0x69, 0x44, 0x50, 0x57],
    [0x02, 0x63, 0xd4, 0x34, 0x1e, 0x48, 0x73, 0x41, 0xa7, 0xec, 0xc5, 0x42, 0x1e, 0xf5, 0x9a, 0xe0, 0x2f, 0x66, 0x64, 0xd5, 0x19, 0x8e, 0x47, 0xe9, 0x23, 0xeb, 0x7d, 0x9f, 0xfa, 0xa2, 0xfd, 0x02],
    [0x0e, 0xdf, 0x85, 0x0a, 0xd6, 0xa9, 0x69, 0x30, 0x2e, 0x53, 0xab, 0xe8, 0x56, 0x5f, 0xb2, 0xcd, 0xc1, 0x8a, 0x09, 0x66, 0x18, 0x32, 0x83, 0xed, 0x7c, 0xf0, 0xa2, 0x29, 0x88, 0x60, 0xa3, 0x90],
    [0x05, 0xc2, 0x0d, 0x3b, 0x5f, 0xd8, 0x3d, 0x40, 0xe3, 0xde, 0x35, 0xe9, 0xca, 0x81, 0x6a, 0x5f, 0x79, 0x5a, 0xea, 0x99, 0x8f, 0x9f, 0x03, 0x72, 0xba, 0xf4, 0xa9, 0x24, 0xda, 0xfd, 0xc3, 0xa7],
    [0x18, 0xa9, 0xdc, 0x66, 0xfc, 0x00, 0x58, 0xc8, 0x49, 0x2b, 0xb8, 0xca, 0x4c, 0x40, 0x9b, 0x3b, 0xb9, 0xb0, 0xed, 0x43, 0xc4, 0x68, 0x2c, 0x93, 0x68, 0xda, 0x99, 0x8f, 0xe2, 0x55, 0xb4, 0x7f],
    [0x30, 0x45, 0xae, 0x99, 0xe3, 0x99, 0xd8, 0x4e, 0xc3, 0xe0, 0x17, 0xf6, 0x70, 0x59, 0x94, 0x38, 0xd8, 0xa7, 0xd1, 0x95, 0x18, 0x1c, 0xf1, 0xc3, 0x69, 0xc6, 0xf2, 0x1e, 0x73, 0x1f, 0x11, 0x41],
    [0x2c, 0x8a, 0x78, 0xb8, 0x64, 0xf0, 0xb0, 0x1b, 0x21, 0xad, 0xbd, 0x00, 0xc2, 0x94, 0xa4, 0x74, 0x68, 0x69, 0xc7, 0x0f, 0xf6, 0xae, 0x1c, 0x09, 0x59, 0x74, 0x3d, 0x3e, 0x67, 0x6c, 0x77, 0x0b],
    [0x09, 0x25, 0x67, 0x6b, 0xc7, 0xd9, 0x31, 0x4b, 0x33, 0xba, 0x40, 0x90, 0x4a, 0x19, 0x6a, 0xa8, 0xe5, 0xa3, 0x8c, 0x88, 0x7f, 0x1f, 0x35, 0x66, 0xa3, 0x6e, 0x34, 0x9c, 0x30, 0x34, 0x15, 0x99],
    [0x11, 0x7c, 0x11, 0xdc, 0xef, 0x23, 0x98, 0xf8, 0x68, 0x56, 0x6d, 0x21, 0x87, 0xcd, 0xd3, 0x2a, 0xbb, 0x5b, 0x2c, 0x20, 0x78, 0xfc, 0xc2, 0x79, 0x1b, 0x8a, 0xcb, 0x90, 0xed, 0x35, 0x89, 0x69],
    [0x16, 0xef, 0x2a, 0x24, 0x3a, 0xd4, 0xf0, 0x83, 0x88, 0xa9, 0x66, 0x05, 0x0b, 0xfb, 0x93, 0x86, 0x20, 0x34, 0x99, 0xc2, 0x98, 0xeb, 0x89, 0x39, 0xb9, 0x35, 0xd8, 0xcb, 0xbe, 0x05, 0xfe, 0x19],
    [0x1a, 0x4d, 0x2f, 0x03, 0x1d, 0xed, 0x4a, 0x8e, 0xa2, 0x46, 0x5f, 0x8d, 0x42, 0x46, 0xac, 0x52, 0xee, 0x63, 0xbf, 0xd1, 0x9b, 0x89, 0xd7, 0x9d, 0x77, 0xae, 0xbb, 0x1e, 0x53, 0x9b, 0x43, 0xb6],
    [0x21, 0x7b, 0x3b, 0xc3, 0xad, 0x1b, 0x2d, 0x82, 0xfc, 0xf3, 0xd0, 0x6c, 0xec, 0xe3, 0x17, 0x73, 0x5c, 0xcb, 0x1c, 0x23, 0xbd, 0x6a, 0x72, 0x3c, 0x02, 0x16, 0x1e, 0xbd, 0xd5, 0x8b, 0x54, 0x90],
    [0x2c, 0x31, 0xb9, 0x5c, 0xad, 0x6b, 0x74, 0x76, 0xcb, 0xd9, 0xb9, 0xbc, 0x11, 0xe7, 0x58, 0x42, 0xf2, 0x2a, 0xef, 0x79, 0x59, 0xa1, 0x4e, 0x4b, 0x2c, 0x66, 0xbe, 0x9c, 0x32, 0xb0, 0x1f, 0x58],
    [0x11, 0x30, 0xcb, 0x0c, 0x2b, 0x99, 0x9e, 0xdd, 0xfc, 0xa0, 0xbe, 0xe3, 0xcc, 0x31, 0x98, 0x75, 0x34, 0x9b, 0x44, 0x74, 0x6f, 0x95, 0xc4, 0x5e, 0x37, 0x58, 0xd9, 0xe4, 0x58, 0x3f, 0xb5, 0x1a],
    [0x1d, 0x87, 0x89, 0x39, 0x3c, 0x66, 0x57, 0xf9, 0x17, 0xf7, 0xa8, 0x2d, 0x8a, 0x1f, 0x19, 0xd1, 0x3e, 0xf1, 0xbc, 0x04, 0x59, 0x55, 0x0b, 0x86, 0x59, 0xc0, 0x30, 0x39, 0x82, 0xa8, 0xf5, 0xce],
    [0x18, 0x2d, 0x27, 0xee, 0xef, 0x2d, 0x46, 0x1f, 0x1e, 0x21, 0x79, 0xfa, 0x9b, 0x0c, 0xbd, 0xf9, 0x58, 0x36, 0xd2, 0xfc, 0x97, 0x89, 0x66, 0xc0, 0x18, 0x86, 0xa8, 0xc4, 0x87, 0x7b, 0x05, 0x53],
    [0x1c, 0x79, 0x73, 0x90, 0x36, 0x21, 0xe8, 0xbe, 0x6c, 0xd6, 0x6e, 0x25, 0xae, 0xa7, 0xfe, 0xf1, 0x78, 0x50, 0xb1, 0x74, 0x81, 0x46, 0x93, 0x1e, 0xb8, 0xa3, 0xc3, 0x4f, 0x47, 0x16, 0x61, 0x96],
    [0x15, 0xd0, 0x4e, 0x08, 0x9e, 0x51, 0x2b, 0x9a, 0x55, 0xef, 0x29, 0x02, 0x21, 0xb6, 0x20, 0xe3, 0xa9, 0xc7, 0x98, 0x79, 0x35, 0xb7, 0xa2, 0x20, 0x5e, 0xee, 0x5f, 0xe4, 0x38, 0x33, 0x2b, 0xda],
    [0x14, 0x8e, 0x4d, 0x90, 0x7c, 0xca, 0xe3, 0xc5, 0x84, 0xa8, 0xf1, 0xdf, 0xde, 0xcd, 0x5a, 0x83, 0x46, 0xc5, 0x48, 0xf4, 0x7d, 0x06, 0x9f, 0x26, 0x9d, 0xe3, 0xb5, 0xa2, 0x2d, 0x5a, 0xe1, 0x08],
    [0x0b, 0x91, 0x97, 0xdc, 0x23, 0xa6, 0x6e, 0xcc, 0x19, 0x77, 0xa6, 0xea, 0x1c, 0xad, 0x0a, 0x66, 0xe2, 0xe9, 0x3e, 0x4e, 0x3c, 0xd8, 0xb9, 0xa0, 0xbc, 0xc0, 0x25, 0xc4, 0x14, 0xdc, 0xa7, 0xb8],
    [0x26, 0x3b, 0x2e, 0xb3, 0xac, 0x5e, 0xcc, 0x8a, 0x99, 0xc4, 0x51, 0xd6, 0x6a, 0xf0, 0x5e, 0x3c, 0xac, 0xdc, 0x93, 0x9f, 0xf0, 0xd9, 0x45, 0xcd, 0x0e, 0xd1, 0xe1, 0xc1, 0xd9, 0x59, 0x79, 0xc3],
    [0x18, 0x0e, 0x3f, 0xa6, 0x14, 0x98, 0x73, 0x44, 0x4a, 0xa7, 0x78, 0xb1, 0x42, 0x6d, 0xbb, 0x22, 0xee, 0x83, 0x2e, 0xc8, 0x38, 0x92, 0xbf, 0x64, 0xf6, 0x2e, 0xfc, 0xec, 0xa1, 0x84, 0x24, 0x92],
    [0x2e, 0x31, 0x1b, 0xd0, 0x1e, 0x26, 0x2f, 0x71, 0xde, 0x79, 0xb3, 0x96, 0xe2, 0xff, 0xbb, 0x18, 0xd5, 0x43, 0x64, 0xb9, 0x35, 0xfa, 0x11, 0x5e, 0xee, 0x2e, 0xbc, 0x28, 0x29, 0xab, 0xba, 0x3a],
    [0x16, 0xcc, 0xaf, 0x66, 0x16, 0x16, 0x68, 0x54, 0x87, 0x75, 0x16, 0x86, 0x45, 0x77, 0x0c, 0xbc, 0xc0, 0xa9, 0x1e, 0x23, 0x33, 0x0b, 0xdf, 0x15, 0x36, 0xad, 0x5d, 0x86, 0xad, 0xde, 0x88, 0x32],
    [0x0a, 0xc2, 0xd3, 0xd2, 0x2f, 0x2f, 0xaa, 0x0e, 0xe9, 0xbe, 0x2d, 0x6a, 0xd0, 0x42, 0x46, 0x7d, 0x40, 0x89, 0x2b, 0x65, 0x9f, 0xc2, 0xa5, 0xae, 0x57, 0x76, 0x98, 0x3e, 0xd0, 0xf1, 0x30, 0x21],
    [0x0d, 0xb3, 0x04, 0x19, 0x9e, 0xd7, 0x12, 0x0c, 0x62, 0x5f, 0xfd, 0x37, 0x42, 0x29, 0x52, 0x0c, 0xf1, 0xab, 0xf4, 0xfe, 0xcd, 0xf2, 0xdf, 0x0c, 0xcc, 0x85, 0x05, 0xa2, 0x56, 0x77, 0xb8, 0xd6],
    [0x0d, 0xcc, 0xd9, 0x3f, 0x58, 0x78, 0x26, 0xf4, 0xf4, 0x76, 0x23, 0x2c, 0x99, 0x7f, 0xf5, 0x27, 0x2d, 0x3d, 0x8b, 0x2c, 0x1e, 0xaf, 0xaf, 0x3f, 0x33, 0xff, 0x15, 0x3d, 0xd9, 0xff, 0x9f, 0xf6],
    [0x01, 0x81, 0x98, 0x26, 0xd5, 0x67, 0x4b, 0xec, 0x00, 0x37, 0x08, 0x03, 0x92, 0xe9, 0xdf, 0x85, 0x4a, 0x84, 0x84, 0xf6, 0xb5, 0x23, 0xac, 0x65, 0x14, 0x35, 0x4c, 0xab, 0x6c, 0x30, 0x25, 0x84],
    [0x14, 0xdc, 0x10, 0x60, 0x25, 0xdc, 0x57, 0x81, 0x25, 0x05, 0x75, 0x6b, 0x36, 0x3f, 0xfa, 0x61, 0x06, 0x78, 0xbd, 0x76, 0x21, 0x0e, 0x05, 0x70, 0xa5, 0x0b, 0x1f, 0x39, 0x72, 0x3f, 0x7d, 0x4b],
    [0x21, 0x8b, 0x44, 0x10, 0x96, 0x6b, 0x9d, 0x5c, 0x1a, 0xbc, 0xad, 0xda, 0x7b, 0x1a, 0x44, 0xeb, 0x33, 0xb8, 0x37, 0xce, 0x86, 0xea, 0x44, 0x48, 0x6e, 0x26, 0x01, 0xaf, 0x44, 0x74, 0x2a, 0x5b],
    [0x22, 0x52, 0x99, 0x37, 0x2f, 0x42, 0x52, 0x01, 0x99, 0x29, 0x2b, 0xc6, 0xea, 0xbf, 0x89, 0x35, 0x5b, 0x18, 0xf7, 0x9c, 0xdc, 0x5e, 0x41, 0x67, 0x8f, 0xef, 0xa7, 0xbd, 0xa5, 0x36, 0xaa, 0x4d],
    [0x29, 0x2d, 0x0c, 0x50, 0x37, 0x94, 0xa0, 0x28, 0x2e, 0xf0, 0xe2, 0x05, 0x72, 0x87, 0x40, 0x59, 0xbd, 0x93, 0x51, 0x4f, 0x5e, 0x85, 0x17, 0xa0, 0xb9, 0x54, 0xf1, 0xac, 0x64, 0xcb, 0xd6, 0x27],
    [0x21, 0xf6, 0xce, 0x8d, 0x4c, 0xc2, 0x0b, 0x46, 0x5a, 0x1d, 0xd1, 0xf9, 0x91, 0xad, 0xd3, 0xdd, 0x28, 0xc5, 0x24, 0xfc, 0x65, 0xb7, 0x78, 0x60, 0xf4, 0xca, 0x05, 0xe4, 0x28, 0x90, 0x5f, 0x35],
    [0x0e, 0xc7, 0x29, 0x34, 0x2d, 0x60, 0xa2, 0xb1, 0xf2, 0x03, 0x7e, 0xcd, 0x36, 0xd4, 0xe5, 0xe7, 0xb4, 0x36, 0x5b, 0xd4, 0x34, 0xf4, 0xb1, 0xe6, 0x06, 0xec, 0x9f, 0xed, 0x74, 0xaf, 0xda, 0x49],
    [0x2f, 0xca, 0x8a, 0x7c, 0xe1, 0x27, 0x4c, 0x07, 0x05, 0x13, 0x75, 0xb4, 0x5c, 0x9b, 0xc5, 0x03, 0xca, 0xa8, 0x80, 0xa7, 0xbb, 0x63, 0x8a, 0x56, 0xab, 0x4d, 0x69, 0xc7, 0xfd, 0x3d, 0x94, 0x47],
    [0x24, 0xae, 0xe4, 0x94, 0xc0, 0x95, 0x24, 0x32, 0x7b, 0xc9, 0x0f, 0x3a, 0xff, 0x1e, 0x1d, 0x59, 0x1f, 0xcf, 0x7e, 0xd7, 0x83, 0x5a, 0x95, 0x88, 0x93, 0xe5, 0x8b, 0x89, 0x7a, 0x4f, 0xd5, 0xeb],
    [0x03, 0x21, 0x91, 0x92, 0x60, 0x90, 0x3e, 0x01, 0xd8, 0x23, 0xd8, 0x01, 0x12, 0x67, 0xec, 0x99, 0x91, 0xf2, 0xec, 0x07, 0xab, 0x5d, 0x42, 0xa5, 0x80, 0xc8, 0x04, 0xf5, 0x1d, 0xb0, 0x0a, 0x7e],
    [0x23, 0x98, 0xe5, 0x2b, 0xf9, 0x86, 0xe3, 0x41, 0x38, 0xf3, 0xec, 0x64, 0xd2, 0x06, 0xe8, 0xdc, 0x1e, 0xb8, 0x23, 0x62, 0xa2, 0x36, 0x21, 0xf1, 0x43, 0xb2, 0x2b, 0x93, 0x86, 0x92, 0x06, 0xe4],
    [0x10, 0xe5, 0x67, 0xb5, 0xcb, 0xc3, 0x72, 0xa9, 0x17, 0x93, 0x26, 0x41, 0xef, 0x0f, 0xb4, 0xee, 0x07, 0x0f, 0x70, 0x2d, 0xb6, 0x2c, 0xf1, 0x74, 0xc3, 0x40, 0x3f, 0x53, 0x4b, 0x69, 0xc8, 0x8d],
    [0x1a, 0xba, 0x7b, 0x1b, 0x89, 0x16, 0x38, 0xa4, 0x4e, 0x5d, 0x3f, 0xe9, 0xd6, 0xac, 0xea, 0x2b, 0x30, 0x7f, 0x5c, 0x24, 0xe7, 0x3b, 0xc8, 0xd3, 0x49, 0xcb, 0x69, 0xdc, 0xc8, 0x99, 0xb2, 0x96],
    [0x23, 0x56, 0x20, 0xdd, 0xc3, 0x5d, 0x45, 0x63, 0xd0, 0x41, 0xfa, 0x73, 0x3e, 0xd0, 0x32, 0xbb, 0x62, 0xdc, 0x2e, 0xa5, 0x18, 0x42, 0x39, 0xf5, 0x53, 0xf9, 0xd8, 0x33, 0xdb, 0x6a, 0xe9, 0x90],
    [0x15, 0x0c, 0xd3, 0xb3, 0xfa, 0x97, 0x11, 0x42, 0xeb, 0xb5, 0x57, 0x6c, 0x9e, 0x05, 0x40, 0xc1, 0xb6, 0x65, 0x7d, 0x76, 0xde, 0x45, 0xee, 0x4a, 0xc3, 0x37, 0x16, 0x13, 0x56, 0x51, 0xc4, 0xaa],
    [0x23, 0x64, 0x25, 0x6b, 0x49, 0x7e, 0x54, 0x4a, 0xdb, 0xf5, 0x8a, 0x0a, 0x44, 0xda, 0xf4, 0x45, 0xd1, 0x85, 0x7b, 0x4f, 0x92, 0x2e, 0x4b, 0x95, 0x47, 0x09, 0xc6, 0xb1, 0xd7, 0x0e, 0x93, 0xea],
    [0x13, 0xed, 0x18, 0xda, 0x99, 0xb0, 0x1f, 0x8d, 0x09, 0xa8, 0xa2, 0x17, 0x4e, 0x60, 0x37, 0xbe, 0xfc, 0xeb, 0x5a, 0xc8, 0xe1, 0x6f, 0xfa, 0xaf, 0xe4, 0xb8, 0x24, 0x09, 0x59, 0x69, 0xe0, 0x89],
    [0x26, 0x02, 0xdb, 0x8d, 0xe5, 0x8b, 0xc3, 0x07, 0xb4, 0x76, 0x66, 0xd4, 0xd8, 0xfb, 0x92, 0x7b, 0x74, 0x4d, 0x4a, 0xe8, 0x66, 0x21, 0x23, 0x54, 0x77, 0xde, 0xd7, 0xfb, 0x31, 0xcb, 0x08, 0x68],
    [0x11, 0xed, 0x84, 0x5e, 0xea, 0x2e, 0xc6, 0x50, 0xfd, 0xad, 0xd1, 0x80, 0x73, 0xcd, 0x0d, 0x06, 0x73, 0x65, 0x2f, 0x40, 0x61, 0x92, 0x47, 0x63, 0x39, 0x28, 0x25, 0x55, 0x5c, 0xea, 0x0f, 0x37],
    [0x2c, 0xa8, 0x30, 0xc2, 0x88, 0xaf, 0xb1, 0xc7, 0x09, 0x87, 0x4b, 0x49, 0x46, 0x3f, 0x67, 0xe8, 0xab, 0x51, 0x73, 0x9b, 0x3f, 0xaf, 0x2f, 0x10, 0xec, 0x61, 0x8a, 0xe4, 0x5d, 0xc8, 0xd9, 0xdf],
    [0x0d, 0x2b, 0xa1, 0x1e, 0x4b, 0x4a, 0x14, 0x78, 0x8b, 0xa0, 0xca, 0xc1, 0x20, 0x12, 0x57, 0x47, 0xb5, 0x0c, 0x5e, 0x38, 0x21, 0xe3, 0x85, 0xe6, 0x4e, 0x0a, 0x22, 0x58, 0xea, 0x25, 0xf6, 0x41],
    [0x03, 0x27, 0x83, 0x89, 0xe8, 0x32, 0xc9, 0x91, 0x54, 0xc3, 0xb0, 0xf5, 0x9e, 0xfa, 0x2f, 0xba, 0x26, 0xf0, 0x2d, 0x01, 0xf7, 0x31, 0xb6, 0xd8, 0xc8, 0x9f, 0x0f, 0xf3, 0xe4, 0x8d, 0x68, 0xc6],
    [0x14, 0x40, 0x85, 0x52, 0x42, 0x2f, 0x59, 0x37, 0x8e, 0x14, 0x61, 0x16, 0x27, 0xc6, 0xf3, 0xa2, 0x70, 0xec, 0xb8, 0xc0, 0x8f, 0x32, 0x44, 0x00, 0x83, 0xc0, 0x48, 0x91, 0x7e, 0x1d, 0x1b, 0x72],
    [0x20, 0x0d, 0x7a, 0x9d, 0x2e, 0x30, 0x7e, 0xac, 0x0d, 0x2d, 0xa7, 0x0b, 0x5d, 0x5f, 0x24, 0xf5, 0x0c, 0x1b, 0xcd, 0xbc, 0x18, 0x8b, 0xdb, 0xca, 0x0b, 0x21, 0x46, 0xdb, 0xff, 0x69, 0x97, 0x3c],
    [0x20, 0x2b, 0x21, 0xa9, 0x3d, 0xb3, 0xd9, 0x54, 0x01, 0x3c, 0x05, 0xb9, 0x1a, 0xac, 0x43, 0xae, 0xd6, 0xd0, 0xe5, 0xff, 0xca, 0x68, 0x77, 0xf6, 0xbb, 0x0a, 0x22, 0xda, 0xf6, 0x88, 0x53, 0xd1],
    [0x0c, 0xf8, 0x8d, 0x99, 0x84, 0x0a, 0xc2, 0x04, 0xa6, 0x24, 0x37, 0xca, 0x9b, 0xc5, 0x34, 0xac, 0x68, 0xda, 0x80, 0x5e, 0xff, 0xc1, 0x00, 0x10, 0xb7, 0x9a, 0xa0, 0xb7, 0xc9, 0x34, 0x23, 0x17],
    [0x14, 0x6d, 0x8d, 0x7b, 0x26, 0xf7, 0x34, 0x71, 0x30, 0x33, 0xdc, 0x2d, 0x19, 0xc5, 0xe6, 0x6d, 0x61, 0xf7, 0x92, 0xbe, 0xa3, 0xb7, 0x43, 0x6b, 0x59, 0x6e, 0x26, 0xe8, 0x18, 0xe7, 0x87, 0x19],
    [0x29, 0x49, 0x73, 0x1e, 0xaf, 0x70, 0x67, 0x4c, 0x92, 0x07, 0x16, 0x4a, 0xb6, 0x4a, 0x55, 0x5a, 0xda, 0x81, 0x83, 0xd2, 0x29, 0x9c, 0x5b, 0x4f, 0x25, 0xa7, 0xd5, 0x18, 0xe1, 0x88, 0xae, 0x09],
    [0x2e, 0x9c, 0x49, 0x2e, 0xb6, 0x7a, 0xb8, 0x3a, 0x21, 0x22, 0x69, 0x8e, 0x16, 0x43, 0x30, 0x91, 0xb0, 0xce, 0x15, 0x63, 0xf9, 0x21, 0xb4, 0x02, 0x79, 0x32, 0xa0, 0x55, 0xd4, 0x33, 0x0e, 0x4d],
    [0x15, 0x8f, 0x72, 0xd4, 0x8d, 0xf7, 0xda, 0x2e, 0x1e, 0xd2, 0x04, 0xa6, 0x83, 0x7f, 0xbb, 0x67, 0xe0, 0x8d, 0x57, 0xd7, 0xd0, 0x1c, 0x89, 0xc8, 0x21, 0xa1, 0xf4, 0x1f, 0x4c, 0x78, 0xd2, 0xd6],
    [0x07, 0xd0, 0x80, 0x60, 0xf5, 0x6e, 0x63, 0xd4, 0x12, 0x14, 0xc3, 0x04, 0x1f, 0x6b, 0xbd, 0x2e, 0x94, 0x69, 0xff, 0x13, 0x1f, 0x44, 0x23, 0x68, 0xbf, 0xfc, 0x35, 0x4e, 0x6b, 0x65, 0xdb, 0x60],
    [0x14, 0x81, 0xe6, 0xef, 0xea, 0x3a, 0xfb, 0x45, 0x2f, 0x38, 0x0e, 0x99, 0x67, 0xfd, 0x31, 0x75, 0x99, 0xcb, 0xfc, 0x9c, 0xc9, 0xf7, 0xa6, 0x27, 0x74, 0x01, 0x6e, 0x50, 0x78, 0x26, 0x3b, 0x90],
    [0x14, 0x46, 0x55, 0x76, 0x1b, 0xb3, 0x7c, 0xfd, 0xca, 0xeb, 0xaf, 0x22, 0x43, 0x83, 0x08, 0x7a, 0x11, 0x3b, 0x0d, 0x26, 0xca, 0xb2, 0x6e, 0x88, 0x75, 0xff, 0x32, 0x4f, 0x5d, 0x56, 0x03, 0x01],
    [0x12, 0x19, 0x52, 0x72, 0x8a, 0x62, 0xad, 0xe2, 0xcb, 0x74, 0xb1, 0x05, 0x5d, 0x37, 0x50, 0x7a, 0xd5, 0x86, 0x2f, 0xc6, 0xb9, 0xa9, 0x67, 0x49, 0xfc, 0x35, 0x71, 0x2e, 0x49, 0x73, 0xbe, 0x02],
    [0x1a, 0xb0, 0x37, 0x67, 0x0c, 0x61, 0x5f, 0x78, 0xde, 0x73, 0xb0, 0x28, 0xaa, 0x79, 0x03, 0x27, 0x92, 0x72, 0xb3, 0x53, 0x31, 0x32, 0x18, 0x86, 0xe9, 0x20, 0x16, 0xc9, 0x0b, 0x4f, 0x60, 0x51],
    [0x0c, 0xf4, 0x24, 0x3d, 0x68, 0xbe, 0x5a, 0x42, 0x1d, 0x0a, 0xee, 0xee, 0x6b, 0x40, 0x21, 0x10, 0xe5, 0x8b, 0x4f, 0x5b, 0xea, 0x77, 0xdc, 0xd4, 0x80, 0x73, 0x73, 0xa9, 0x9a, 0xe9, 0xa9, 0xcb],
    [0x18, 0x91, 0x69, 0xd9, 0xe3, 0xc8, 0x1f, 0x8d, 0xb1, 0x46, 0x56, 0xcd, 0x70, 0x71, 0x76, 0x93, 0x6d, 0xaf, 0x8c, 0x1d, 0x4b, 0x93, 0xac, 0x60, 0xd7, 0xba, 0x81, 0xe9, 0xbc, 0xfa, 0xc4, 0xa3],
    [0x2c, 0x0a, 0xd7, 0xfb, 0x32, 0xe4, 0x4d, 0x64, 0xd5, 0x8e, 0xe9, 0x65, 0x06, 0x84, 0x97, 0x41, 0xf9, 0x5b, 0x79, 0xfe, 0x04, 0x44, 0x21, 0x43, 0x84, 0x1f, 0x1b, 0x00, 0xe9, 0x82, 0x88, 0x66],
    [0x01, 0xed, 0x6e, 0x4c, 0x48, 0x8d, 0x20, 0xb3, 0xd6, 0x85, 0xa7, 0xf5, 0x27, 0xfc, 0xa6, 0x70, 0xe1, 0x31, 0xdf, 0x7f, 0x50, 0x60, 0x92, 0xc3, 0x84, 0xf0, 0x81, 0x96, 0xbf, 0x1a, 0x32, 0xb4],
    [0x14, 0x43, 0x41, 0xe2, 0x18, 0x0e, 0x6e, 0x60, 0x65, 0x31, 0x6d, 0xb9, 0xbf, 0x39, 0x43, 0x39, 0x50, 0xaa, 0xde, 0x14, 0xcf, 0x5f, 0xfc, 0x6a, 0xb6, 0x42, 0x55, 0x41, 0x3c, 0x1a, 0xc0, 0xaa],
    [0x2f, 0x96, 0xbd, 0x56, 0xd3, 0x77, 0x8b, 0x72, 0xc4, 0x86, 0x55, 0x74, 0x71, 0x88, 0x6f, 0xda, 0xc9, 0xc2, 0x33, 0x4c, 0x1e, 0xe5, 0xa6, 0x05, 0x6e, 0x16, 0x9d, 0x8a, 0x46, 0x08, 0xe8, 0x9a],
    [0x2c, 0xae, 0xc7, 0x0c, 0x8c, 0x0f, 0x1e, 0x56, 0x88, 0xea, 0xca, 0xd1, 0x39, 0x7f, 0x27, 0x5c, 0xa7, 0x23, 0xb4, 0x4c, 0x51, 0x91, 0x9e, 0x01, 0x7d, 0xa3, 0x63, 0x37, 0xd7, 0xbc, 0xad, 0xe2],
    [0x2a, 0x72, 0x1c, 0x23, 0x61, 0x0e, 0xb6, 0x9a, 0xed, 0xee, 0xec, 0xb6, 0x57, 0xf2, 0xfa, 0xd3, 0x9c, 0x8e, 0xf1, 0xf9, 0x7e, 0xd5, 0xc2, 0x67, 0xe9, 0x6f, 0x0f, 0x60, 0x96, 0xd3, 0x20, 0x86],
    [0x09, 0x2b, 0x6e, 0x42, 0xab, 0xde, 0x60, 0xeb, 0x79, 0x85, 0xb4, 0xdc, 0x46, 0x8a, 0x64, 0x30, 0x88, 0xcc, 0x96, 0xfb, 0x7d, 0x2c, 0x71, 0xf6, 0x96, 0x4d, 0x67, 0x3b, 0x7f, 0x03, 0xe9, 0xdd],
    [0x0a, 0x55, 0xd3, 0xb1, 0x76, 0xd3, 0xbb, 0x13, 0x7c, 0x65, 0xc4, 0xcd, 0xd7, 0x26, 0xb4, 0xfa, 0x9c, 0xae, 0xbc, 0x6f, 0x34, 0x55, 0x68, 0xb8, 0xfd, 0x6f, 0xd8, 0xca, 0xb6, 0x68, 0x4f, 0x01],
];

/// The constant of round `i` as a number.
pub open spec fn round_constant_value(i: int) -> nat {
    be_value(MIMC_ROUND_CONSTANTS_110[i]@) % modulus()
}

/// The constant of round `i` as a field element.
pub fn round_constant(i: usize) -> (c: FieldElement)
    requires
        i < MIMC_ROUNDS,
    ensures
        c.value() == round_constant_value(i as int),
{
    let row = MIMC_ROUND_CONSTANTS_110[i];
    FieldElement::from_be_bytes_mod_order(row.as_slice())
}

} // verus!
