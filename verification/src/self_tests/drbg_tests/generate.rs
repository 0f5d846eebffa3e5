//! Self-tests of the envelope's generate operation.

use crate::drbg::gen_drbg::{kind_strength, Drbg, MechKind};
use crate::self_tests::constants::{ADD_IN, ADD_IN_TOO_LONG, MAX_BYTES};
use crate::self_tests::formats::check_res;
use vstd::prelude::*;

verus! {

/// Aggregator that runs all the generate self-tests for one mechanism.
pub fn run_tests(kind: MechKind, strength: usize) -> (r: usize)
    requires
        112 <= strength <= 256,
        strength as nat <= kind_strength(kind),
    ensures
        r == 0,
{
    norm_op(kind, strength) + non_empty_out_vec(kind, strength) + int_state_not_valid(
        kind,
        strength,
    ) + req_too_many_bytes(kind, strength) + ss_not_supported(kind, strength) + add_in_too_long(
        kind,
        strength,
    )
}

/// Verifying normal generate operation, with prediction resistance and an
/// additional input at the cap.
fn norm_op(kind: MechKind, strength: usize) -> (r: usize)
    requires
        112 <= strength <= 256,
        strength as nat <= kind_strength(kind),
    ensures
        r == 0,
{
    let res = Drbg::new(kind, strength, None);
    let mut bytes: Vec<u8> = Vec::new();
    let mut drbg = match res {
        Err(_) => {
            return 1;
        },
        Ok(inst) => inst,
    };

    let res = drbg.generate(&mut bytes, MAX_BYTES, strength, true, Some(ADD_IN.as_slice()));

    check_res(
        res,
        0,
        "norm_op".to_string(),
        "DRBG_TESTS::generate_test".to_string(),
        "generate normal operation failed.".to_string(),
        "success on generate normal operation.".to_string(),
    )
}

/// Verifying that an initially non-empty output vector is cleared.
fn non_empty_out_vec(kind: MechKind, strength: usize) -> (r: usize)
    requires
        112 <= strength <= 256,
        strength as nat <= kind_strength(kind),
    ensures
        r == 0,
{
    let res = Drbg::new(kind, strength, None);
    let mut bytes: Vec<u8> = Vec::new();
    bytes.push(0x00);
    let mut drbg = match res {
        Err(_) => {
            return 1;
        },
        Ok(inst) => inst,
    };

    // Making the generate fail for a security strength that is not
    // supported.
    drbg.generate(&mut bytes, MAX_BYTES, strength + 64, false, None);

    let cleared: usize = if bytes.is_empty() {
        1
    } else {
        0
    };
    check_res(
        cleared,
        1,
        "non_empty_out_vec".to_string(),
        "DRBG_TESTS::generate_test".to_string(),
        "initially non-empty out vector was not cleared before use.".to_string(),
        "initially non-empty out vector cleared before use as expected.".to_string(),
    )
}

/// Verifying that a generate on an invalid internal state is refused.
fn int_state_not_valid(kind: MechKind, strength: usize) -> (r: usize)
    requires
        112 <= strength <= 256,
        strength as nat <= kind_strength(kind),
    ensures
        r == 0,
{
    let res = Drbg::new(kind, strength, None);
    let mut bytes: Vec<u8> = Vec::new();
    let mut drbg = match res {
        Err(_) => {
            return 1;
        },
        Ok(inst) => inst,
    };

    drbg.uninstantiate();
    let res = drbg.generate(&mut bytes, MAX_BYTES, strength, false, None);

    check_res(
        res,
        1,
        "int_state_not_valid".to_string(),
        "DRBG_TESTS::generate_test".to_string(),
        "generate on invalid empty state succeeded.".to_string(),
        "generate on invalid empty state failed as expected.".to_string(),
    )
}

/// Verifying that a request of too many pseudo-random bytes is refused.
fn req_too_many_bytes(kind: MechKind, strength: usize) -> (r: usize)
    requires
        112 <= strength <= 256,
        strength as nat <= kind_strength(kind),
    ensures
        r == 0,
{
    let res = Drbg::new(kind, strength, None);
    let mut bytes: Vec<u8> = Vec::new();
    let mut drbg = match res {
        Err(_) => {
            return 1;
        },
        Ok(inst) => inst,
    };

    let over = drbg.get_max_pbr() + 1;
    let res = drbg.generate(&mut bytes, over, strength, false, None);

    check_res(
        res,
        2,
        "req_too_many_bytes".to_string(),
        "DRBG_TESTS::generate_test".to_string(),
        "generated too many bytes.".to_string(),
        "refused to generate too many bytes as expected.".to_string(),
    )
}

/// Verifying that a security strength that is not supported is refused.
fn ss_not_supported(kind: MechKind, strength: usize) -> (r: usize)
    requires
        112 <= strength <= 256,
        strength as nat <= kind_strength(kind),
    ensures
        r == 0,
{
    let res = Drbg::new(kind, strength, None);
    let mut bytes: Vec<u8> = Vec::new();
    let mut drbg = match res {
        Err(_) => {
            return 1;
        },
        Ok(inst) => inst,
    };

    let res = drbg.generate(&mut bytes, MAX_BYTES, strength + 8, false, None);

    check_res(
        res,
        3,
        "ss_not_supported".to_string(),
        "DRBG_TESTS::generate_test".to_string(),
        "generated bytes with insufficient security strength.".to_string(),
        "refused to generate bytes on not supported security strength as expected.".to_string(),
    )
}

/// Verifying that a too long additional input is refused.
fn add_in_too_long(kind: MechKind, strength: usize) -> (r: usize)
    requires
        112 <= strength <= 256,
        strength as nat <= kind_strength(kind),
    ensures
        r == 0,
{
    let res = Drbg::new(kind, strength, None);
    let mut bytes: Vec<u8> = Vec::new();
    let mut drbg = match res {
        Err(_) => {
            return 1;
        },
        Ok(inst) => inst,
    };

    let res = drbg.generate(&mut bytes, MAX_BYTES, strength, false, Some(ADD_IN_TOO_LONG.as_slice()));

    check_res(
        res,
        4,
        "add_in_too_long".to_string(),
        "DRBG_TESTS::generate_test".to_string(),
        "generated bytes on additional input too long.".to_string(),
        "refused to generate bytes on additional input too long as expected.".to_string(),
    )
}

} // verus!
