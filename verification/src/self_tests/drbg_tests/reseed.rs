//! Self-tests of the envelope's reseed operation.

use crate::drbg::gen_drbg::{kind_strength_exec, Drbg, MechKind};
use crate::self_tests::constants::{ADD_IN, ADD_IN_TOO_LONG};
use crate::self_tests::formats::check_res;
use vstd::prelude::*;

verus! {

/// Aggregator that runs all the reseed self-tests for one mechanism.
pub fn run_tests(kind: MechKind) -> (r: usize)
    ensures
        r == 0,
{
    internal_state_not_valid(kind) + add_in_too_long(kind) + norm_op(kind)
}

/// Verifying normal reseed operation.
fn norm_op(kind: MechKind) -> (r: usize)
    ensures
        r == 0,
{
    let ss = kind_strength_exec(kind);
    let res = Drbg::new(kind, ss, None);
    let mut drbg = match res {
        Err(_) => {
            return 1;
        },
        Ok(inst) => inst,
    };

    let res = drbg.reseed(Some(ADD_IN.as_slice()));

    check_res(
        res,
        0,
        "norm_op".to_string(),
        "DRBG_TESTS::reseed_test".to_string(),
        "reseed normal operation failed.".to_string(),
        "success on reseed normal operation.".to_string(),
    )
}

/// Verifying that the reseed of an invalid internal state is not allowed.
fn internal_state_not_valid(kind: MechKind) -> (r: usize)
    ensures
        r == 0,
{
    let ss = kind_strength_exec(kind);
    let res = Drbg::new(kind, ss, None);
    let mut drbg = match res {
        Err(_) => {
            return 1;
        },
        Ok(inst) => inst,
    };

    drbg.uninstantiate();
    let res = drbg.reseed(None);

    check_res(
        res,
        1,
        "internal_state_not_valid".to_string(),
        "DRBG_TESTS::reseed_test".to_string(),
        "error expected on reseed of empty internal state.".to_string(),
        "reseed of empty internal state failed as expected.".to_string(),
    )
}

/// Verifying that additional inputs that are too long are rejected.
fn add_in_too_long(kind: MechKind) -> (r: usize)
    ensures
        r == 0,
{
    let ss = kind_strength_exec(kind);
    let res = Drbg::new(kind, ss, None);
    let mut drbg = match res {
        Err(_) => {
            return 1;
        },
        Ok(inst) => inst,
    };

    let res = drbg.reseed(Some(ADD_IN_TOO_LONG.as_slice()));

    check_res(
        res,
        2,
        "add_in_too_long".to_string(),
        "DRBG_TESTS::reseed_test".to_string(),
        "error expected on additional input too long.".to_string(),
        "reseed on additional input too long failed as expected.".to_string(),
    )
}

} // verus!
