//! The user-facing DRBG envelope: it owns the entropy source and a concrete
//! mechanism instance, validates every input once, and reseeds automatically
//! when the mechanism asks for it.

pub mod gen_drbg;
