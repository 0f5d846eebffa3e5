//! Known-answer tests against stored NIST CAVP vectors, one per mechanism
//! and primitive where a vector is stored. Each vector instantiates the
//! mechanism with the given entropy and nonce, calls generate twice for the
//! expected length, and compares the second output with the expected bytes.

use crate::drbg::gen_drbg::MechKind;
use crate::mechs::ctr_mech::{self, CtrDrbgMech};
use crate::mechs::hash_mech::{self, HashDrbgMech};
use crate::mechs::hmac_mech::{self, HmacDrbgMech};
use crate::mechs::primitives::{AesAlg, HashAlg};
use crate::self_tests::formats::bytes_eq;
use vstd::prelude::*;

verus! {

pub const HMAC_SHA256_ENTROPY: [u8; 32] = [
    202, 133, 25, 17, 52, 147, 132, 191, 254, 137, 222, 28, 189, 196, 110, 104, 49, 228, 77, 52,
    164, 251, 147, 94, 226, 133, 221, 20, 183, 26, 116, 136,
];

pub const HMAC_SHA256_NONCE: [u8; 16] = [
    101, 155, 169, 108, 96, 29, 198, 159, 201, 2, 148, 8, 5, 236, 12, 168,
];

pub const HMAC_SHA256_EXPECTED: [u8; 128] = [
    229, 40, 233, 171, 242, 222, 206, 84, 212, 124, 126, 117, 229, 254, 48, 33, 73, 248, 23, 234,
    159, 180, 190, 230, 244, 25, 150, 151, 208, 77, 91, 137, 213, 79, 187, 151, 138, 21, 181, 196,
    67, 201, 236, 33, 3, 109, 36, 96, 182, 247, 62, 186, 208, 220, 42, 186, 110, 98, 74, 191, 7,
    116, 91, 193, 7, 105, 75, 183, 84, 123, 176, 153, 95, 112, 222, 37, 214, 178, 158, 45, 48, 17,
    187, 25, 210, 118, 118, 192, 113, 98, 200, 181, 204, 222, 6, 104, 150, 29, 248, 104, 3, 72, 44,
    179, 126, 214, 213, 192, 187, 141, 80, 207, 31, 80, 212, 118, 170, 4, 88, 189, 171, 168, 6,
    244, 139, 233, 220, 184,
];

pub const HASH_SHA256_ENTROPY: [u8; 32] = [
    166, 90, 208, 243, 69, 219, 78, 14, 255, 232, 117, 195, 162, 231, 31, 66, 199, 18, 157, 98, 15,
    245, 193, 25, 169, 239, 85, 240, 81, 133, 224, 251,
];

pub const HASH_SHA256_NONCE: [u8; 16] = [
    133, 129, 249, 49, 117, 23, 39, 110, 6, 233, 96, 125, 219, 203, 204, 46,
];

pub const HASH_SHA256_EXPECTED: [u8; 128] = [
    211, 225, 96, 195, 91, 153, 243, 64, 178, 98, 130, 100, 209, 117, 16, 96, 224, 4, 93, 163, 131,
    255, 87, 165, 125, 115, 166, 115, 210, 184, 216, 13, 170, 246, 166, 195, 90, 145, 187, 69, 121,
    215, 63, 208, 200, 254, 209, 17, 176, 57, 19, 6, 130, 138, 223, 237, 82, 143, 1, 129, 33, 179,
    254, 189, 195, 67, 231, 151, 184, 125, 187, 99, 219, 19, 51, 222, 217, 209, 236, 225, 119, 207,
    166, 183, 31, 232, 171, 29, 164, 102, 36, 237, 100, 21, 229, 28, 205, 226, 199, 202, 134, 226,
    131, 153, 14, 234, 235, 145, 18, 4, 21, 82, 139, 34, 149, 145, 2, 129, 176, 45, 212, 49, 244,
    201, 247, 4, 39, 223,
];

pub const CTR_AES128_ENTROPY: [u8; 32] = [
    206, 80, 243, 61, 165, 212, 193, 211, 212, 0, 78, 179, 82, 68, 183, 242, 205, 127, 46, 80, 118,
    251, 246, 120, 10, 127, 246, 52, 178, 73, 165, 252,
];

pub const CTR_AES128_EXPECTED: [u8; 64] = [
    101, 69, 192, 82, 157, 55, 36, 67, 179, 146, 206, 179, 174, 58, 153, 163, 15, 150, 62, 175, 49,
    50, 128, 241, 209, 161, 232, 127, 157, 179, 115, 211, 97, 231, 93, 24, 1, 130, 102, 73, 156,
    204, 214, 77, 155, 187, 141, 224, 24, 95, 33, 51, 131, 8, 15, 173, 222, 196, 107, 174, 31, 120,
    78, 90,
];

pub const CTR_AES256_ENTROPY: [u8; 48] = [
    223, 93, 115, 250, 164, 104, 100, 158, 221, 163, 59, 92, 202, 121, 176, 176, 86, 0, 65, 156,
    203, 122, 135, 157, 223, 236, 157, 179, 46, 228, 148, 229, 83, 27, 81, 222, 22, 163, 15, 118,
    146, 98, 71, 76, 115, 190, 192, 16,
];

pub const CTR_AES256_EXPECTED: [u8; 64] = [
    209, 192, 124, 217, 90, 248, 167, 241, 16, 18, 200, 76, 228, 139, 184, 203, 135, 24, 158, 153,
    212, 15, 204, 177, 119, 28, 97, 155, 223, 130, 171, 34, 128, 177, 220, 47, 37, 129, 243, 145,
    100, 247, 172, 12, 81, 4, 148, 179, 164, 60, 65, 183, 219, 23, 81, 76, 135, 177, 7, 174, 121,
    62, 1, 197,
];

/// Whether the stored HMAC-DRBG/SHA-256 vector reproduces under the
/// specification-level transitions: instantiate, then the second of two
/// 128-byte generations equals the expected bytes.
pub open spec fn hmac_sha256_vector_ok() -> bool {
    let st = hmac_mech::spec_new_state(
        HashAlg::Sha256,
        HMAC_SHA256_ENTROPY@,
        HMAC_SHA256_NONCE@,
        Seq::empty(),
    );
    let g1 = hmac_mech::spec_generate(HashAlg::Sha256, st.0, st.1, 128, None);
    let g2 = hmac_mech::spec_generate(HashAlg::Sha256, g1.1, g1.2, 128, None);
    g2.0 == HMAC_SHA256_EXPECTED@
}

/// Whether the stored Hash-DRBG/SHA-256 vector reproduces under the
/// specification-level transitions.
pub open spec fn hash_sha256_vector_ok() -> bool {
    let st = hash_mech::spec_new_state(
        HashAlg::Sha256,
        HASH_SHA256_ENTROPY@,
        HASH_SHA256_NONCE@,
        Seq::empty(),
    );
    let g1 = hash_mech::spec_generate(HashAlg::Sha256, st.0, st.1, 1, 128, None);
    let g2 = hash_mech::spec_generate(HashAlg::Sha256, g1.1, st.1, 2, 128, None);
    g2.0 == HASH_SHA256_EXPECTED@
}

/// Whether the stored CTR-DRBG/AES-128 vector reproduces under the
/// specification-level transitions.
pub open spec fn ctr_aes128_vector_ok() -> bool {
    let st = ctr_mech::spec_new_state(AesAlg::Aes128, CTR_AES128_ENTROPY@, Seq::empty());
    let g1 = ctr_mech::spec_generate(AesAlg::Aes128, st.0, st.1, 64, None);
    let g2 = ctr_mech::spec_generate(AesAlg::Aes128, g1.1, g1.2, 64, None);
    g2.0 == CTR_AES128_EXPECTED@
}

/// Whether the stored CTR-DRBG/AES-256 vector reproduces under the
/// specification-level transitions.
pub open spec fn ctr_aes256_vector_ok() -> bool {
    let st = ctr_mech::spec_new_state(AesAlg::Aes256, CTR_AES256_ENTROPY@, Seq::empty());
    let g1 = ctr_mech::spec_generate(AesAlg::Aes256, st.0, st.1, 64, None);
    let g2 = ctr_mech::spec_generate(AesAlg::Aes256, g1.1, g1.2, 64, None);
    g2.0 == CTR_AES256_EXPECTED@
}

/// Whether every vector stored for the chosen mechanism reproduces; a
/// mechanism without a stored vector passes vacuously.
pub open spec fn vectors_ok(kind: MechKind) -> bool {
    match kind {
        MechKind::HmacSha256 => hmac_sha256_vector_ok(),
        MechKind::HashSha256 => hash_sha256_vector_ok(),
        MechKind::CtrAes128 => ctr_aes128_vector_ok(),
        MechKind::CtrAes256 => ctr_aes256_vector_ok(),
        _ => true,
    }
}

/// Runs the stored NIST vectors for the chosen mechanism: 0 when every
/// stored vector reproduces its expected output, 1 otherwise.
pub fn test_vectors(kind: MechKind) -> (r: usize)
    ensures
        r == (if vectors_ok(kind) {
            0int
        } else {
            1int
        }),
{
    match kind {
        MechKind::HmacSha256 => hmac_sha256_vector(),
        MechKind::HashSha256 => hash_sha256_vector(),
        MechKind::CtrAes128 => ctr_aes128_vector(),
        MechKind::CtrAes256 => ctr_aes256_vector(),
        _ => 0,
    }
}

/// HMAC-DRBG over SHA-256, no personalization, no additional input.
fn hmac_sha256_vector() -> (r: usize)
    ensures
        r == (if hmac_sha256_vector_ok() {
            0int
        } else {
            1int
        }),
{
    let pers: Vec<u8> = Vec::new();
    let mut req: usize = 256;
    let res = HmacDrbgMech::new(
        HashAlg::Sha256,
        HMAC_SHA256_ENTROPY.as_slice(),
        HMAC_SHA256_NONCE.as_slice(),
        pers.as_slice(),
        &mut req,
    );
    let mut drbg = match res {
        None => {
            return 1;
        },
        Some(inst) => inst,
    };
    let expected = HMAC_SHA256_EXPECTED.as_slice();
    let n = expected.len();
    let mut out: Vec<u8> = Vec::new();
    drbg.generate(&mut out, n, None);
    drbg.generate(&mut out, n, None);
    if bytes_eq(out.as_slice(), expected) {
        0
    } else {
        1
    }
}

/// Hash-DRBG over SHA-256, no personalization, no additional input.
fn hash_sha256_vector() -> (r: usize)
    ensures
        r == (if hash_sha256_vector_ok() {
            0int
        } else {
            1int
        }),
{
    let pers: Vec<u8> = Vec::new();
    let mut req: usize = 256;
    let res = HashDrbgMech::new(
        HashAlg::Sha256,
        HASH_SHA256_ENTROPY.as_slice(),
        HASH_SHA256_NONCE.as_slice(),
        pers.as_slice(),
        &mut req,
    );
    let mut drbg = match res {
        None => {
            return 1;
        },
        Some(inst) => inst,
    };
    let expected = HASH_SHA256_EXPECTED.as_slice();
    let n = expected.len();
    let mut out: Vec<u8> = Vec::new();
    drbg.generate(&mut out, n, None);
    drbg.generate(&mut out, n, None);
    if bytes_eq(out.as_slice(), expected) {
        0
    } else {
        1
    }
}

/// CTR-DRBG (no derivation function) over AES-128, the entropy alone seeds
/// the state.
fn ctr_aes128_vector() -> (r: usize)
    ensures
        r == (if ctr_aes128_vector_ok() {
            0int
        } else {
            1int
        }),
{
    let pers: Vec<u8> = Vec::new();
    let mut req: usize = 128;
    let res = CtrDrbgMech::new(
        AesAlg::Aes128,
        CTR_AES128_ENTROPY.as_slice(),
        pers.as_slice(),
        pers.as_slice(),
        &mut req,
    );
    let mut drbg = match res {
        None => {
            return 1;
        },
        Some(inst) => inst,
    };
    let expected = CTR_AES128_EXPECTED.as_slice();
    let n = expected.len();
    let mut out: Vec<u8> = Vec::new();
    drbg.generate(&mut out, n, None);
    drbg.generate(&mut out, n, None);
    if bytes_eq(out.as_slice(), expected) {
        0
    } else {
        1
    }
}

/// CTR-DRBG (no derivation function) over AES-256, the entropy alone seeds
/// the state.
fn ctr_aes256_vector() -> (r: usize)
    ensures
        r == (if ctr_aes256_vector_ok() {
            0int
        } else {
            1int
        }),
{
    let pers: Vec<u8> = Vec::new();
    let mut req: usize = 256;
    let res = CtrDrbgMech::new(
        AesAlg::Aes256,
        CTR_AES256_ENTROPY.as_slice(),
        pers.as_slice(),
        pers.as_slice(),
        &mut req,
    );
    let mut drbg = match res {
        None => {
            return 1;
        },
        Some(inst) => inst,
    };
    let expected = CTR_AES256_EXPECTED.as_slice();
    let n = expected.len();
    let mut out: Vec<u8> = Vec::new();
    drbg.generate(&mut out, n, None);
    drbg.generate(&mut out, n, None);
    if bytes_eq(out.as_slice(), expected) {
        0
    } else {
        1
    }
}

} // verus!
