//! Tests of the DRBG envelope: boundary checks on every input, automatic
//! reseeding, prediction resistance and the lifecycle of an instance.

use drbg::drbg::gen_drbg::{Drbg, MechKind};

/// Instantiation accepts the strength interval boundaries and rejects just
/// outside them.
#[test]
fn instantiate_strength_boundaries() {
    assert!(Drbg::new(MechKind::HmacSha256, 112, None).is_ok());
    match Drbg::new(MechKind::HmacSha256, 111, None) {
        Err(e) => assert_eq!(e, 1),
        Ok(_) => panic!("instantiation unexpectedly succeeded"),
    }
    match Drbg::new(MechKind::HmacSha256, 257, None) {
        Err(e) => assert_eq!(e, 1),
        Ok(_) => panic!("instantiation unexpectedly succeeded"),
    }
    assert!(Drbg::new(MechKind::HashSha512, 256, None).is_ok());
    match Drbg::new(MechKind::HashSha512, 0, None) {
        Err(e) => assert_eq!(e, 1),
        Ok(_) => panic!("instantiation unexpectedly succeeded"),
    }
}

/// A personalization string of 32 bytes is accepted; 33 bytes are rejected
/// with code 2.
#[test]
fn instantiate_pers_boundary() {
    let pers32 = [0x5au8; 32];
    let pers33 = [0x5au8; 33];
    assert!(Drbg::new(MechKind::HashSha256, 256, Some(&pers32)).is_ok());
    match Drbg::new(MechKind::HashSha256, 256, Some(&pers33)) {
        Err(e) => assert_eq!(e, 2),
        Ok(_) => panic!("instantiation unexpectedly succeeded"),
    }
}

/// A CTR cipher whose key is shorter than the requested strength rejects
/// the instantiation with code 3.
#[test]
fn instantiate_ctr_strength_cap() {
    assert!(Drbg::new(MechKind::CtrAes128, 128, None).is_ok());
    match Drbg::new(MechKind::CtrAes128, 129, None) {
        Err(e) => assert_eq!(e, 3),
        Ok(_) => panic!("instantiation unexpectedly succeeded"),
    }
    assert!(Drbg::new(MechKind::CtrAes192, 192, None).is_ok());
    match Drbg::new(MechKind::CtrAes192, 256, None) {
        Err(e) => assert_eq!(e, 3),
        Ok(_) => panic!("instantiation unexpectedly succeeded"),
    }
    assert!(Drbg::new(MechKind::CtrAes256, 256, None).is_ok());
}

/// Additional input of 32 bytes is accepted; 33 bytes are rejected with
/// code 4.
#[test]
fn generate_add_boundary() {
    let mut drbg = Drbg::new(MechKind::HmacSha256, 256, None).unwrap();
    let mut out = Vec::new();
    let add32 = [0x11u8; 32];
    let add33 = [0x11u8; 33];
    assert_eq!(drbg.generate(&mut out, 16, 256, false, Some(&add32)), 0);
    assert_eq!(out.len(), 16);
    assert_eq!(drbg.generate(&mut out, 16, 256, false, Some(&add33)), 4);
    assert!(out.is_empty());
}

/// A request of exactly the per-request maximum succeeds; one byte more is
/// rejected with code 2.
#[test]
fn generate_request_size_boundary() {
    let mut drbg = Drbg::new(MechKind::CtrAes256, 256, None).unwrap();
    let max = drbg.get_max_pbr();
    let mut out = Vec::new();
    assert_eq!(drbg.generate(&mut out, max, 256, false, None), 0);
    assert_eq!(out.len(), max);
    assert_eq!(drbg.generate(&mut out, max + 1, 256, false, None), 2);
    assert!(out.is_empty());
}

/// Asking for more strength than the instance carries is rejected with
/// code 3; asking for less succeeds.
#[test]
fn generate_strength_request() {
    let mut drbg = Drbg::new(MechKind::HmacSha256, 128, None).unwrap();
    assert_eq!(drbg.get_sec_str(), 128);
    let mut out = Vec::new();
    assert_eq!(drbg.generate(&mut out, 32, 256, false, None), 3);
    assert!(out.is_empty());
    assert_eq!(drbg.generate(&mut out, 32, 64, false, None), 0);
    assert_eq!(out.len(), 32);
}

/// With prediction resistance, a reseed happens before every generate: the
/// reseed counter sits at 2 after each call instead of growing.
#[test]
fn prediction_resistance_reseeds_each_time() {
    let mut drbg = Drbg::new(MechKind::HashSha256, 256, None).unwrap();
    assert_eq!(drbg.get_count(), 1);
    let mut out = Vec::new();
    assert_eq!(drbg.generate(&mut out, 16, 256, true, None), 0);
    assert_eq!(drbg.get_count(), 2);
    assert_eq!(drbg.generate(&mut out, 16, 256, true, None), 0);
    assert_eq!(drbg.get_count(), 2);
    assert_eq!(drbg.generate(&mut out, 16, 256, false, None), 0);
    assert_eq!(drbg.get_count(), 3);
}

/// An initially non-empty output buffer is cleared before use, on the error
/// path as well as on success.
#[test]
fn output_buffer_cleared() {
    let mut drbg = Drbg::new(MechKind::HmacSha512, 256, None).unwrap();
    let mut out = vec![0xde, 0xad];
    assert_eq!(drbg.generate(&mut out, 8, 512, false, None), 3);
    assert!(out.is_empty());
    let mut out = vec![0xde, 0xad];
    assert_eq!(drbg.generate(&mut out, 8, 256, false, None), 0);
    assert_eq!(out.len(), 8);
}

/// Reseed validates the additional input and resets the counter.
#[test]
fn reseed_behaviour() {
    let mut drbg = Drbg::new(MechKind::CtrAes128, 128, None).unwrap();
    let mut out = Vec::new();
    assert_eq!(drbg.generate(&mut out, 8, 128, false, None), 0);
    assert_eq!(drbg.get_count(), 2);
    let add33 = [0u8; 33];
    assert_eq!(drbg.reseed(Some(&add33)), 2);
    assert_eq!(drbg.get_count(), 2);
    assert_eq!(drbg.reseed(None), 0);
    assert_eq!(drbg.get_count(), 1);
}

/// Uninstantiate wipes the secrets and leaves an inert instance; a second
/// call reports it.
#[test]
fn uninstantiate_lifecycle() {
    let mut drbg = Drbg::new(MechKind::HmacSha256, 256, None).unwrap();
    assert!(!drbg.is_zeroized());
    assert!(!drbg.secrets_wiped());
    assert_eq!(drbg.uninstantiate(), 0);
    assert!(drbg.is_zeroized());
    assert!(drbg.secrets_wiped());
    assert_eq!(drbg.get_count(), 0);
    assert_eq!(drbg.uninstantiate(), 1);
    let mut out = Vec::new();
    assert_eq!(drbg.generate(&mut out, 8, 256, false, None), 1);
    assert!(out.is_empty());
    assert_eq!(drbg.reseed(None), 1);
}

/// The envelope reseeds by itself once the seed life is exhausted: the
/// caller never sees the "reseed required" code.
#[test]
fn automatic_reseed_on_exhaustion() {
    let mut drbg = Drbg::new(MechKind::HmacSha256, 256, None).unwrap();
    let mut out = Vec::new();
    for _ in 0..999 {
        assert_eq!(drbg.generate(&mut out, 4, 256, false, None), 0);
    }
    assert_eq!(drbg.get_count(), 1000);
    assert_eq!(drbg.generate(&mut out, 4, 256, false, None), 0);
    assert_eq!(out.len(), 4);
    assert_eq!(drbg.get_count(), 2);
}
