//! A deterministic random bit generator (DRBG) library implementing the three
//! mechanisms of NIST SP 800-90A — HMAC-DRBG, Hash-DRBG and CTR-DRBG (without
//! derivation function) — together with the user-facing envelope that owns the
//! entropy source, and a self-test harness.

pub mod drbg;
pub mod mechs;
pub mod self_tests;
