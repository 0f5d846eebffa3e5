//! Self-tests of the envelope's instantiation.

use crate::drbg::gen_drbg::{kind_strength_exec, Drbg, MechKind};
use crate::self_tests::constants::{NS_SEC_STR, PERS, PERS_TOO_LONG};
use crate::self_tests::formats::check_res;
use vstd::prelude::*;

verus! {

/// Aggregator that runs all the instantiation self-tests for one mechanism.
pub fn run_tests(kind: MechKind) -> (r: usize)
    ensures
        r == 0,
{
    norm_op(kind) + test_ss_not_supported(kind) + ps_is_too_long(kind)
}

/// Testing that the mechanism's own strength, with a personalization string
/// at the cap, is accepted.
fn norm_op(kind: MechKind) -> (r: usize)
    ensures
        r == 0,
{
    let ss = kind_strength_exec(kind);
    let res = Drbg::new(kind, ss, Some(PERS.as_slice()));
    let instantiated: usize = match res {
        Err(_) => 0,
        Ok(_) => 1,
    };

    check_res(
        instantiated,
        1,
        "norm_op".to_string(),
        "DRBG_TESTS::instantiation_test".to_string(),
        "failed to instantiate DRBG using a supported security strength.".to_string(),
        "succeeded to instantiate DRBG using a supported security strength as expected.".to_string(),
    )
}

/// Testing that a security strength that is not supported is rejected.
fn test_ss_not_supported(kind: MechKind) -> (r: usize)
    ensures
        r == 0,
{
    let res = Drbg::new(kind, NS_SEC_STR, None);
    let err: usize = match res {
        Err(e) => e,
        Ok(_) => 0,
    };

    check_res(
        err,
        1,
        "test_ss_not_supported".to_string(),
        "DRBG_TESTS::instantiation_test".to_string(),
        "succeeded to instantiate DRBG using not supported security strength.".to_string(),
        "failed to instantiate DRBG using not supported security strength as expected.".to_string(),
    )
}

/// Testing that the limit on the personalization string's length is
/// enforced.
fn ps_is_too_long(kind: MechKind) -> (r: usize)
    ensures
        r == 0,
{
    let ss = kind_strength_exec(kind);
    let res = Drbg::new(kind, ss, Some(PERS_TOO_LONG.as_slice()));
    let err: usize = match res {
        Err(e) => e,
        Ok(_) => 0,
    };

    check_res(
        err,
        2,
        "ps_is_too_long".to_string(),
        "DRBG_TESTS::instantiation_test".to_string(),
        "succeeded to instantiate DRBG using not supported personalization string.".to_string(),
        "failed to instantiate DRBG using not supported personalization string as expected.".to_string(),
    )
}

} // verus!
