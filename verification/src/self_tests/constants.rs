//! Fixed inputs used by the self-tests.

use vstd::prelude::*;

verus! {

/// Number of bits and bytes to be generated per request during testing.
pub const MAX_BITS: usize = 1024;

pub const MAX_BYTES: usize = MAX_BITS / 8;

/// A security strength that no mechanism supports.
pub const NS_SEC_STR: usize = 512;

/// A fixed 32-byte entropy input.
pub const ENTROPY: [u8; 32] = [
    156, 186, 175, 146, 33, 53, 148, 237, 178, 239, 255, 10, 79, 212, 99, 33, 26, 251, 9, 222, 11,
    1, 191, 101, 255, 249, 146, 254, 26, 210, 183, 235,
];

/// A fixed 16-byte nonce.
pub const NONCE: [u8; 16] = [16, 155, 36, 155, 57, 142, 88, 2, 19, 20, 33, 231, 8, 252, 103, 171];

/// A fixed 32-byte personalization string.
pub const PERS: [u8; 32] = [
    82, 141, 239, 218, 116, 11, 127, 185, 92, 37, 138, 5, 154, 36, 172, 19, 101, 18, 206, 96, 7,
    76, 3, 241, 254, 172, 253, 166, 182, 26, 167, 169,
];

/// A personalization string one byte over the cap.
pub const PERS_TOO_LONG: [u8; 33] = [
    82, 141, 239, 218, 116, 11, 127, 185, 92, 37, 138, 5, 154, 36, 172, 19, 101, 18, 206, 96, 7,
    76, 3, 241, 254, 172, 253, 166, 182, 26, 167, 169, 2,
];

/// A fixed 32-byte additional input.
pub const ADD_IN: [u8; 32] = [
    7, 105, 103, 193, 196, 157, 39, 168, 95, 112, 93, 23, 64, 111, 15, 106, 93, 45, 44, 55, 59,
    216, 6, 99, 65, 216, 220, 211, 198, 7, 221, 132,
];

/// An additional input one byte over the cap.
pub const ADD_IN_TOO_LONG: [u8; 33] = [
    7, 105, 103, 193, 196, 157, 39, 168, 95, 112, 93, 23, 64, 111, 15, 106, 93, 45, 44, 55, 59,
    216, 6, 99, 65, 216, 220, 211, 198, 7, 221, 132, 247,
];

} // verus!
