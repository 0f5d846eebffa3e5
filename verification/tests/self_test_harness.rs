//! Tests of the self-test harness itself.

use drbg::drbg::gen_drbg::MechKind;
use drbg::self_tests::drbg_tests;
use drbg::self_tests::formats::{bytes_eq, check_res, format_message};
use drbg::self_tests::mech_tests::nist_vectors::test_vectors;
use drbg::self_tests::run_tests::run_all;

#[test]
fn full_self_test_run_passes() {
    assert_eq!(run_all(), 0);
}

#[test]
fn stored_vectors_pass_per_mechanism() {
    assert_eq!(test_vectors(MechKind::HmacSha256), 0);
    assert_eq!(test_vectors(MechKind::HashSha256), 0);
    assert_eq!(test_vectors(MechKind::CtrAes128), 0);
    assert_eq!(test_vectors(MechKind::CtrAes256), 0);
}

#[test]
fn envelope_self_tests_pass_per_mechanism() {
    assert_eq!(drbg_tests::instantiation::run_tests(MechKind::CtrAes128), 0);
    assert_eq!(drbg_tests::reseed::run_tests(MechKind::HashSha512), 0);
    assert_eq!(drbg_tests::generate::run_tests(MechKind::HmacSha256, 256), 0);
}

#[test]
fn format_message_shapes() {
    let failed = format_message(
        true,
        String::from("HMAC-DRBG"),
        String::from("reseed_test"),
        String::from("something broke."),
    );
    assert_eq!(failed, "TEST FAILED (HMAC-DRBG) - reseed_test: something broke.\n");
    let passed = format_message(
        false,
        String::from("CTR-DRBG"),
        String::from("generate_test"),
        String::from("all good."),
    );
    assert_eq!(passed, "TEST PASSED (CTR-DRBG) - generate_test: all good.\n");
}

#[test]
fn check_res_counts_mismatches() {
    let r = check_res(
        3,
        3,
        String::from("t"),
        String::from("m"),
        String::from("f"),
        String::from("s"),
    );
    assert_eq!(r, 0);
    let r = check_res(
        3,
        4,
        String::from("t"),
        String::from("m"),
        String::from("f"),
        String::from("s"),
    );
    assert_eq!(r, 1);
}

#[test]
fn bytes_eq_compares_contents() {
    assert!(bytes_eq(&[1, 2, 3], &[1, 2, 3]));
    assert!(!bytes_eq(&[1, 2, 3], &[1, 2, 4]));
    assert!(!bytes_eq(&[1, 2], &[1, 2, 3]));
    assert!(bytes_eq(&[], &[]));
}
