//! Known-answer tests of the mechanisms against stored NIST vectors.

pub mod nist_vectors;
