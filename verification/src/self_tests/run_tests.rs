//! The full self-test run: every mechanism's stored NIST vectors and the
//! envelope's instantiation, reseed and generate checks. The envelope checks
//! are verified to pass, so only a failing known-answer vector can raise the
//! count.

use crate::drbg::gen_drbg::{kind_strength_exec, MechKind};
use crate::self_tests::mech_tests::nist_vectors::vectors_ok;
use crate::self_tests::{drbg_tests, mech_tests};
use vstd::prelude::*;

verus! {

/// Runs every self-test for one mechanism: its stored NIST vectors plus the
/// envelope checks at the mechanism's own strength.
fn run_for_kind(kind: MechKind) -> (r: usize)
    ensures
        r == (if vectors_ok(kind) {
            0int
        } else {
            1int
        }),
{
    let strength = kind_strength_exec(kind);
    let kat = mech_tests::nist_vectors::test_vectors(kind);
    let env = drbg_tests::instantiation::run_tests(kind) + drbg_tests::reseed::run_tests(kind)
        + drbg_tests::generate::run_tests(kind, strength);
    kat + env
}

/// Runs all self-tests over every mechanism and primitive, and returns the
/// number of failures: zero exactly when every stored NIST vector
/// reproduces its expected output, since the envelope checks are verified
/// to pass.
pub fn run_all() -> (r: usize)
    ensures
        r <= 7,
        r == 0 <==> (vectors_ok(MechKind::HmacSha256) && vectors_ok(MechKind::HashSha256)
            && vectors_ok(MechKind::CtrAes128) && vectors_ok(MechKind::CtrAes256)),
{
    let res_hash = run_for_kind(MechKind::HashSha256) + run_for_kind(MechKind::HashSha512);
    let res_hmac = run_for_kind(MechKind::HmacSha256) + run_for_kind(MechKind::HmacSha512);
    let res_ctr = run_for_kind(MechKind::CtrAes128) + run_for_kind(MechKind::CtrAes192)
        + run_for_kind(MechKind::CtrAes256);
    res_hash + res_hmac + res_ctr
}

} // verus!
