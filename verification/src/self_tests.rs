//! The self-test harness: negative-path checks of the envelope and
//! known-answer tests of the mechanisms.

pub mod constants;
pub mod drbg_tests;
pub mod formats;
pub mod mech_tests;
pub mod run_tests;
