//! Tests of the three DRBG mechanisms: NIST known-answer vectors,
//! determinism, zeroization, reseed-counter exhaustion and output lengths.

use drbg::mechs::ctr_mech::CtrDrbgMech;
use drbg::mechs::hash_mech::HashDrbgMech;
use drbg::mechs::hmac_mech::HmacDrbgMech;
use drbg::mechs::primitives::{AesAlg, HashAlg};

const ENTROPY: [u8; 48] = [
    156, 186, 175, 146, 33, 53, 148, 237, 178, 239, 255, 10, 79, 212, 99, 33, 26, 251, 9, 222, 11,
    1, 191, 101, 255, 249, 146, 254, 26, 210, 183, 235, 239, 43, 103, 243, 3, 22, 168, 150, 198,
    204, 150, 174, 202, 171, 114, 14,
];
const NONCE: [u8; 16] = [16, 155, 36, 155, 57, 142, 88, 2, 19, 20, 33, 231, 8, 252, 103, 171];

/// The second-generate output of HMAC-DRBG/SHA-256 on the stored NIST
/// vector equals the expected bytes.
#[test]
fn hmac_sha256_nist_vector() {
    let entropy =
        hex::decode("ca851911349384bffe89de1cbdc46e6831e44d34a4fb935ee285dd14b71a7488").unwrap();
    let nonce = hex::decode("659ba96c601dc69fc902940805ec0ca8").unwrap();
    let expected = hex::decode(
        "e528e9abf2dece54d47c7e75e5fe302149f817ea9fb4bee6f4199697d04d5b89\
         d54fbb978a15b5c443c9ec21036d2460b6f73ebad0dc2aba6e624abf07745bc1\
         07694bb7547bb0995f70de25d6b29e2d3011bb19d27676c07162c8b5ccde0668\
         961df86803482cb37ed6d5c0bb8d50cf1f50d476aa0458bdaba806f48be9dcb8",
    )
    .unwrap();
    let mut req: usize = 256;
    let mut drbg = HmacDrbgMech::new(HashAlg::Sha256, &entropy, &nonce, &[], &mut req).unwrap();
    let mut out = Vec::new();
    assert_eq!(drbg.generate(&mut out, expected.len(), None), 0);
    assert_eq!(drbg.generate(&mut out, expected.len(), None), 0);
    assert_eq!(out, expected);
}

/// The second-generate output of Hash-DRBG/SHA-256 on the stored NIST
/// vector equals the expected bytes.
#[test]
fn hash_sha256_nist_vector() {
    let entropy =
        hex::decode("a65ad0f345db4e0effe875c3a2e71f42c7129d620ff5c119a9ef55f05185e0fb").unwrap();
    let nonce = hex::decode("8581f9317517276e06e9607ddbcbcc2e").unwrap();
    let expected = hex::decode(
        "d3e160c35b99f340b2628264d1751060e0045da383ff57a57d73a673d2b8d80d\
         aaf6a6c35a91bb4579d73fd0c8fed111b0391306828adfed528f018121b3febd\
         c343e797b87dbb63db1333ded9d1ece177cfa6b71fe8ab1da46624ed6415e51c\
         cde2c7ca86e283990eeaeb91120415528b2295910281b02dd431f4c9f70427df",
    )
    .unwrap();
    let mut req: usize = 256;
    let mut drbg = HashDrbgMech::new(HashAlg::Sha256, &entropy, &nonce, &[], &mut req).unwrap();
    let mut out = Vec::new();
    assert_eq!(drbg.generate(&mut out, expected.len(), None), 0);
    assert_eq!(drbg.generate(&mut out, expected.len(), None), 0);
    assert_eq!(out, expected);
}

/// The second-generate output of CTR-DRBG/AES-128 (no derivation function)
/// on the stored NIST vector equals the expected bytes.
#[test]
fn ctr_aes128_nist_vector() {
    let entropy =
        hex::decode("ce50f33da5d4c1d3d4004eb35244b7f2cd7f2e5076fbf6780a7ff634b249a5fc").unwrap();
    let expected = hex::decode(
        "6545c0529d372443b392ceb3ae3a99a30f963eaf313280f1d1a1e87f9db373d3\
         61e75d18018266499cccd64d9bbb8de0185f213383080faddec46bae1f784e5a",
    )
    .unwrap();
    let mut req: usize = 128;
    let mut drbg = CtrDrbgMech::new(AesAlg::Aes128, &entropy, &[], &[], &mut req).unwrap();
    let mut out = Vec::new();
    assert_eq!(drbg.generate(&mut out, expected.len(), None), 0);
    assert_eq!(drbg.generate(&mut out, expected.len(), None), 0);
    assert_eq!(out, expected);
}

/// The second-generate output of CTR-DRBG/AES-256 (no derivation function)
/// on the stored NIST vector equals the expected bytes.
#[test]
fn ctr_aes256_nist_vector() {
    let entropy = hex::decode(
        "df5d73faa468649edda33b5cca79b0b05600419ccb7a879ddfec9db32ee494e5\
         531b51de16a30f769262474c73bec010",
    )
    .unwrap();
    let expected = hex::decode(
        "d1c07cd95af8a7f11012c84ce48bb8cb87189e99d40fccb1771c619bdf82ab22\
         80b1dc2f2581f39164f7ac0c510494b3a43c41b7db17514c87b107ae793e01c5",
    )
    .unwrap();
    let mut req: usize = 256;
    let mut drbg = CtrDrbgMech::new(AesAlg::Aes256, &entropy, &[], &[], &mut req).unwrap();
    let mut out = Vec::new();
    assert_eq!(drbg.generate(&mut out, expected.len(), None), 0);
    assert_eq!(drbg.generate(&mut out, expected.len(), None), 0);
    assert_eq!(out, expected);
}

/// Two instances instantiated with identical inputs and driven by identical
/// operation sequences produce identical outputs, for each mechanism.
#[test]
fn determinism_identical_instances() {
    let add: [u8; 8] = [1, 2, 3, 4, 5, 6, 7, 8];

    let mut req: usize = 256;
    let mut a = HmacDrbgMech::new(HashAlg::Sha512, &ENTROPY[..32], &NONCE, &[7], &mut req).unwrap();
    let mut req: usize = 256;
    let mut b = HmacDrbgMech::new(HashAlg::Sha512, &ENTROPY[..32], &NONCE, &[7], &mut req).unwrap();
    let (mut out_a, mut out_b) = (Vec::new(), Vec::new());
    assert_eq!(a.generate(&mut out_a, 77, Some(&add)), 0);
    assert_eq!(b.generate(&mut out_b, 77, Some(&add)), 0);
    assert_eq!(out_a, out_b);
    assert_eq!(a.reseed(&ENTROPY[..32], None), 0);
    assert_eq!(b.reseed(&ENTROPY[..32], None), 0);
    assert_eq!(a.generate(&mut out_a, 33, None), 0);
    assert_eq!(b.generate(&mut out_b, 33, None), 0);
    assert_eq!(out_a, out_b);

    let mut req: usize = 256;
    let mut a = HashDrbgMech::new(HashAlg::Sha512, &ENTROPY[..32], &NONCE, &[], &mut req).unwrap();
    let mut req: usize = 256;
    let mut b = HashDrbgMech::new(HashAlg::Sha512, &ENTROPY[..32], &NONCE, &[], &mut req).unwrap();
    assert_eq!(a.generate(&mut out_a, 130, Some(&add)), 0);
    assert_eq!(b.generate(&mut out_b, 130, Some(&add)), 0);
    assert_eq!(out_a, out_b);

    let mut req: usize = 192;
    let mut a = CtrDrbgMech::new(AesAlg::Aes192, &ENTROPY[..40], &[], &[9], &mut req).unwrap();
    let mut req: usize = 192;
    let mut b = CtrDrbgMech::new(AesAlg::Aes192, &ENTROPY[..40], &[], &[9], &mut req).unwrap();
    assert_eq!(a.generate(&mut out_a, 50, Some(&add)), 0);
    assert_eq!(b.generate(&mut out_b, 50, Some(&add)), 0);
    assert_eq!(out_a, out_b);
}

/// After zeroize, every operation returns the "destroyed" code and the
/// output buffer stays empty, for each mechanism.
#[test]
fn zeroized_instance_is_inert() {
    let mut req: usize = 256;
    let mut m = HmacDrbgMech::new(HashAlg::Sha256, &ENTROPY[..32], &NONCE, &[], &mut req).unwrap();
    assert_eq!(m.zeroize(), 0);
    assert!(m._is_zeroized());
    let mut out = vec![0xaau8];
    assert_eq!(m.generate(&mut out, 16, None), 1);
    assert!(out.is_empty());
    assert_eq!(m.reseed(&ENTROPY[..32], None), 1);
    assert_eq!(m.zeroize(), 1);

    let mut req: usize = 256;
    let mut m = HashDrbgMech::new(HashAlg::Sha256, &ENTROPY[..32], &NONCE, &[], &mut req).unwrap();
    assert_eq!(m.zeroize(), 0);
    let mut out = vec![0xaau8];
    assert_eq!(m.generate(&mut out, 16, None), 1);
    assert!(out.is_empty());
    assert_eq!(m.reseed(&ENTROPY[..32], None), 1);
    assert_eq!(m.zeroize(), 1);

    let mut req: usize = 256;
    let mut m = CtrDrbgMech::new(AesAlg::Aes256, &ENTROPY[..48], &[], &[], &mut req).unwrap();
    assert_eq!(m.zeroize(), 0);
    let mut out = vec![0xaau8];
    assert_eq!(m.generate(&mut out, 16, None), 1);
    assert!(out.is_empty());
    assert_eq!(m.reseed(&ENTROPY[..48], None), 1);
    assert_eq!(m.zeroize(), 1);
}

/// After zeroize, every secret byte equals zero.
#[test]
fn zeroize_wipes_secrets() {
    let mut req: usize = 256;
    let mut m = HmacDrbgMech::new(HashAlg::Sha256, &ENTROPY[..32], &NONCE, &[], &mut req).unwrap();
    assert!(!m.secrets_wiped());
    assert_eq!(m.zeroize(), 0);
    assert!(m.secrets_wiped());

    let mut req: usize = 256;
    let mut m = HashDrbgMech::new(HashAlg::Sha512, &ENTROPY[..32], &NONCE, &[], &mut req).unwrap();
    assert!(!m.secrets_wiped());
    assert_eq!(m.zeroize(), 0);
    assert!(m.secrets_wiped());
}

/// CTR-DRBG/AES-128 instantiated from all-zero entropy: the key and V are
/// nonzero after instantiation, all zero after zeroize, and the counter
/// matches 1 then 0.
#[test]
fn ctr_zero_entropy_state_lifecycle() {
    let entropy = [0u8; 32];
    let mut req: usize = 128;
    let mut m = CtrDrbgMech::new(AesAlg::Aes128, &entropy, &[], &[], &mut req).unwrap();
    assert_eq!(req, 128);
    assert_eq!(m.count(), 1);
    assert!(!m.secrets_wiped());
    assert_eq!(m.zeroize(), 0);
    assert!(m.secrets_wiped());
    assert_eq!(m.count(), 0);
}

/// The output of generate has exactly the requested length, including
/// lengths that are not multiples of the block or hash size.
#[test]
fn generate_output_lengths() {
    for n in [0usize, 1, 15, 16, 17, 31, 32, 33, 63, 64, 65, 100] {
        let mut req: usize = 256;
        let mut m =
            HmacDrbgMech::new(HashAlg::Sha256, &ENTROPY[..32], &NONCE, &[], &mut req).unwrap();
        let mut out = Vec::new();
        assert_eq!(m.generate(&mut out, n, None), 0);
        assert_eq!(out.len(), n);

        let mut req: usize = 256;
        let mut m =
            HashDrbgMech::new(HashAlg::Sha256, &ENTROPY[..32], &NONCE, &[], &mut req).unwrap();
        let mut out = Vec::new();
        assert_eq!(m.generate(&mut out, n, None), 0);
        assert_eq!(out.len(), n);

        let mut req: usize = 256;
        let mut m = CtrDrbgMech::new(AesAlg::Aes256, &ENTROPY[..48], &[], &[], &mut req).unwrap();
        let mut out = Vec::new();
        assert_eq!(m.generate(&mut out, n, None), 0);
        assert_eq!(out.len(), n);
    }
}

/// Hash-DRBG/SHA-256 driven back-to-back: the counter starts at 1, so the
/// 999th generate still succeeds, the next one demands a reseed, and after
/// a reseed the next one succeeds.
#[test]
fn hash_seed_life_exhaustion() {
    let mut req: usize = 256;
    let mut m = HashDrbgMech::new(HashAlg::Sha256, &ENTROPY[..32], &NONCE, &[], &mut req).unwrap();
    let mut out = Vec::new();
    let mut last = usize::MAX;
    for _ in 0..999 {
        last = m.generate(&mut out, 8, None);
    }
    assert_eq!(last, 0);
    assert!(m.reseed_needed());
    assert_eq!(m.generate(&mut out, 8, None), 2);
    assert!(out.is_empty());
    assert_eq!(m.reseed(&ENTROPY[..32], None), 0);
    assert_eq!(m.count(), 1);
    assert_eq!(m.generate(&mut out, 8, None), 0);
    assert_eq!(out.len(), 8);
}

/// Entropy and nonce length checks at instantiation, and the coercion of
/// the requested strength.
#[test]
fn instantiation_input_checks() {
    let mut req: usize = 256;
    assert!(HmacDrbgMech::new(HashAlg::Sha256, &ENTROPY[..16], &NONCE, &[], &mut req).is_none());
    let mut req: usize = 256;
    assert!(HmacDrbgMech::new(HashAlg::Sha256, &ENTROPY[..32], &NONCE[..8], &[], &mut req).is_none());
    let mut req: usize = 257;
    assert!(HmacDrbgMech::new(HashAlg::Sha256, &ENTROPY[..32], &NONCE, &[], &mut req).is_none());
    let mut req: usize = 112;
    assert!(HmacDrbgMech::new(HashAlg::Sha256, &ENTROPY[..32], &NONCE, &[], &mut req).is_some());
    assert_eq!(req, 256);

    let mut req: usize = 256;
    assert!(CtrDrbgMech::new(AesAlg::Aes128, &ENTROPY[..48], &[], &[], &mut req).is_none());
    let mut req: usize = 128;
    assert!(CtrDrbgMech::new(AesAlg::Aes128, &ENTROPY[..31], &[], &[], &mut req).is_none());
    let mut req: usize = 112;
    assert!(CtrDrbgMech::new(AesAlg::Aes128, &ENTROPY[..32], &[], &[], &mut req).is_some());
    assert_eq!(req, 128);
}

/// Reseed rejects entropy that does not cover the strength, and resets the
/// counter on success.
#[test]
fn reseed_entropy_checks() {
    let mut req: usize = 256;
    let mut m = HmacDrbgMech::new(HashAlg::Sha256, &ENTROPY[..32], &NONCE, &[], &mut req).unwrap();
    let mut out = Vec::new();
    assert_eq!(m.generate(&mut out, 8, None), 0);
    assert_eq!(m.count(), 2);
    assert_eq!(m.reseed(&ENTROPY[..16], None), 2);
    assert_eq!(m.count(), 2);
    assert_eq!(m.reseed(&ENTROPY[..32], Some(&[1, 2, 3])), 0);
    assert_eq!(m.count(), 1);

    let mut req: usize = 256;
    let mut m = CtrDrbgMech::new(AesAlg::Aes256, &ENTROPY[..48], &[], &[], &mut req).unwrap();
    assert_eq!(m.reseed(&ENTROPY[..47], None), 2);
    assert_eq!(m.reseed(&ENTROPY[..48], None), 0);
}

/// Two successive generate outputs differ, for every primitive: the
/// underlying HMAC, hash and cipher really move the state forward.
#[test]
fn successive_outputs_differ() {
    let mut req: usize = 256;
    let mut m = HmacDrbgMech::new(HashAlg::Sha512, &ENTROPY[..32], &NONCE, &[], &mut req).unwrap();
    let (mut a, mut b) = (Vec::new(), Vec::new());
    assert_eq!(m.generate(&mut a, 32, None), 0);
    assert_eq!(m.generate(&mut b, 32, None), 0);
    assert_ne!(a, b);
    assert_ne!(a, vec![0u8; 32]);

    let mut req: usize = 256;
    let mut m = HashDrbgMech::new(HashAlg::Sha512, &ENTROPY[..32], &NONCE, &[], &mut req).unwrap();
    assert_eq!(m.generate(&mut a, 32, None), 0);
    assert_eq!(m.generate(&mut b, 32, None), 0);
    assert_ne!(a, b);
    assert_ne!(a, vec![0u8; 32]);

    let mut req: usize = 192;
    let mut m = CtrDrbgMech::new(AesAlg::Aes192, &ENTROPY[..40], &[], &[], &mut req).unwrap();
    assert_eq!(m.generate(&mut a, 32, None), 0);
    assert_eq!(m.generate(&mut b, 32, None), 0);
    assert_ne!(a, b);
    assert_ne!(a, vec![0u8; 32]);
}

/// The mechanism names and seed life are fixed.
#[test]
fn names_and_seed_life() {
    assert_eq!(HmacDrbgMech::drbg_name(), "HMAC-DRBG");
    assert_eq!(HashDrbgMech::drbg_name(), "Hash-DRBG");
    assert_eq!(CtrDrbgMech::drbg_name(), "CTR-DRBG");
    assert_eq!(HmacDrbgMech::seed_life(), 1000);
    assert_eq!(HashDrbgMech::seed_life(), 1000);
    assert_eq!(CtrDrbgMech::seed_life(), 1000);
}

/// HMAC-DRBG/SHA-512 is deterministic: the second-generate output on fixed
/// entropy and nonce is pinned.
#[test]
fn hmac_sha512_pinned_output() {
    let expected = hex::decode(
        "08ee3a9fb15688c0e5bc4f1d6ad0a3acb013051b924693ea714b6aae070c7504\
         07a279bd415aa26c59f560b87562d0dbbeb0a94e1b6f0dd03538083ab2c7c1e8",
    )
    .unwrap();
    let mut req: usize = 256;
    let mut m = HmacDrbgMech::new(HashAlg::Sha512, &ENTROPY[..32], &NONCE, &[], &mut req).unwrap();
    let mut out = Vec::new();
    assert_eq!(m.generate(&mut out, 64, None), 0);
    assert_eq!(m.generate(&mut out, 64, None), 0);
    assert_eq!(out, expected);
}

/// Hash-DRBG/SHA-512 is deterministic: the second-generate output on fixed
/// entropy and nonce is pinned.
#[test]
fn hash_sha512_pinned_output() {
    let expected = hex::decode(
        "f97c5a4784170891d33fcea618d7ee8be87b280913319c75ebd6774dc67aee8e\
         ffd7908fb9a1beeca8e1081f9afaf2c84416ccd454831a343989e8bf259d0c0c",
    )
    .unwrap();
    let mut req: usize = 256;
    let mut m = HashDrbgMech::new(HashAlg::Sha512, &ENTROPY[..32], &NONCE, &[], &mut req).unwrap();
    let mut out = Vec::new();
    assert_eq!(m.generate(&mut out, 64, None), 0);
    assert_eq!(m.generate(&mut out, 64, None), 0);
    assert_eq!(out, expected);
}

/// CTR-DRBG/AES-192 is deterministic: the second-generate output on fixed
/// entropy is pinned.
#[test]
fn ctr_aes192_pinned_output() {
    let expected = hex::decode(
        "73add00719647b3bfbbaa71ee30ceefd238fa313e95857011733669479a6411c\
         2ca35a60090d833022e36baacc6b5e502924412a5d70f4f1ac1cc38d116b045f",
    )
    .unwrap();
    let mut req: usize = 192;
    let mut m = CtrDrbgMech::new(AesAlg::Aes192, &ENTROPY[..40], &[], &[], &mut req).unwrap();
    let mut out = Vec::new();
    assert_eq!(m.generate(&mut out, 64, None), 0);
    assert_eq!(m.generate(&mut out, 64, None), 0);
    assert_eq!(out, expected);
}

/// Different personalization strings yield different initial states: the
/// outputs of otherwise identical instances diverge.
#[test]
fn pers_diversifies_output() {
    let mut req: usize = 256;
    let mut a = HmacDrbgMech::new(HashAlg::Sha256, &ENTROPY[..32], &NONCE, &[1], &mut req).unwrap();
    let mut req: usize = 256;
    let mut b = HmacDrbgMech::new(HashAlg::Sha256, &ENTROPY[..32], &NONCE, &[2], &mut req).unwrap();
    let (mut out_a, mut out_b) = (Vec::new(), Vec::new());
    assert_eq!(a.generate(&mut out_a, 32, None), 0);
    assert_eq!(b.generate(&mut out_b, 32, None), 0);
    assert_ne!(out_a, out_b);
}

/// Reseed mixes the fresh entropy and additional input deterministically:
/// the post-reseed generate output is pinned, for each mechanism.
#[test]
fn reseed_path_pinned_outputs() {
    let add: [u8; 3] = [5, 6, 7];

    let mut req: usize = 256;
    let mut m = HmacDrbgMech::new(HashAlg::Sha256, &ENTROPY[..32], &NONCE, &[], &mut req).unwrap();
    let mut out = Vec::new();
    assert_eq!(m.generate(&mut out, 16, None), 0);
    assert_eq!(m.reseed(&ENTROPY[16..48], Some(&add)), 0);
    assert_eq!(m.generate(&mut out, 48, None), 0);
    let expected = hex::decode(
        "401b0dce8c907c5099dc0535472f16172135ba68907267f39131dbce93b54b69\
         376f41f9e74a6357c08ba2b3794fcaf2",
    )
    .unwrap();
    assert_eq!(out, expected);

    let mut req: usize = 256;
    let mut m = HashDrbgMech::new(HashAlg::Sha256, &ENTROPY[..32], &NONCE, &[], &mut req).unwrap();
    assert_eq!(m.generate(&mut out, 16, None), 0);
    assert_eq!(m.reseed(&ENTROPY[16..48], Some(&add)), 0);
    assert_eq!(m.generate(&mut out, 48, None), 0);
    let expected = hex::decode(
        "b04852eaf931f9d16b40153d1fecfebc96b688d2e4d5b9b42323282341faf836\
         9f1ba13ad5e5d974f433d0f88be2bb06",
    )
    .unwrap();
    assert_eq!(out, expected);

    let mut req: usize = 128;
    let mut m = CtrDrbgMech::new(AesAlg::Aes128, &ENTROPY[..32], &[], &[], &mut req).unwrap();
    assert_eq!(m.generate(&mut out, 16, None), 0);
    assert_eq!(m.reseed(&ENTROPY[16..48], Some(&add)), 0);
    assert_eq!(m.generate(&mut out, 48, None), 0);
    let expected = hex::decode(
        "9f848b353c0eba7335fb0997b716711180e1b7796691875aff50557bfddd2693\
         8586a5ddf9e55a563198263391cca254",
    )
    .unwrap();
    assert_eq!(out, expected);
}
