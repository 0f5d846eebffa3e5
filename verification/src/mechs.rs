//! The three DRBG mechanisms of NIST SP 800-90A and the helpers they share.

pub mod ctr_mech;
pub mod hash_mech;
pub mod hmac_mech;
pub mod primitives;
pub mod utility;
