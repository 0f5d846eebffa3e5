//! The DRBG envelope (SP 800-90A §9): one user-facing API over the three
//! mechanisms. The envelope owns the entropy source, stores the security
//! strength it was instantiated with, enforces the local caps on
//! personalization strings, additional input and request size, and forces a
//! reseed with fresh entropy when prediction resistance is asked for or the
//! seed life is exhausted.

use crate::mechs::ctr_mech::{self, CtrDrbgMech};
use crate::mechs::hash_mech::{self, HashDrbgMech};
use crate::mechs::hmac_mech::{self, HmacDrbgMech};
use crate::mechs::primitives::{AesAlg, HashAlg};
use crate::mechs::utility::{opt_bytes, opt_len, repeat_byte};
use vstd::prelude::*;

verus! {

/// The most bytes one generate request may return (SP 800-90A allows up to
/// 2^19 bits per request; this envelope grants 2^16 bytes).
pub const MAX_PER_REQUEST: usize = 65536;

/// The lowest security strength an instance may be asked for, in bits.
pub const MIN_SEC_STR: usize = 112;

/// The highest security strength an instance may be asked for, in bits.
pub const MAX_SEC_STR: usize = 256;

/// The local policy cap, in bytes, on personalization strings and
/// additional input.
pub const MAX_IN_LEN: usize = 32;

/// Relies on `rand::fill` over the thread-local generator: fills the buffer
/// with random bytes. Nothing is promised of the values, only the length; a
/// failing entropy source aborts, as a DRBG cannot proceed without entropy.
#[verifier::external_body]
pub(crate) fn get_entropy(n: usize) -> (r: Vec<u8>)
    ensures
        r@.len() == n,
{
    let mut buf = vec![0u8; n];
    rand::fill(&mut buf[..]);
    buf
}

/// The mechanism and primitive an envelope is instantiated over.
#[derive(Clone, Copy, PartialEq, Eq, Structural)]
pub enum MechKind {
    HmacSha256,
    HmacSha512,
    HashSha256,
    HashSha512,
    CtrAes128,
    CtrAes192,
    CtrAes256,
}

/// The strength, in bits, that the mechanism itself can support.
pub open spec fn kind_strength(kind: MechKind) -> nat {
    match kind {
        MechKind::HmacSha256 => 256,
        MechKind::HmacSha512 => 256,
        MechKind::HashSha256 => 256,
        MechKind::HashSha512 => 256,
        MechKind::CtrAes128 => 128,
        MechKind::CtrAes192 => 192,
        MechKind::CtrAes256 => 256,
    }
}

/// The strength, in bits, that the mechanism itself can support, as a
/// runtime value.
pub fn kind_strength_exec(kind: MechKind) -> (r: usize)
    ensures
        r as nat == kind_strength(kind),
{
    match kind {
        MechKind::HmacSha256 => 256,
        MechKind::HmacSha512 => 256,
        MechKind::HashSha256 => 256,
        MechKind::HashSha512 => 256,
        MechKind::CtrAes128 => 128,
        MechKind::CtrAes192 => 192,
        MechKind::CtrAes256 => 256,
    }
}

/// A concrete mechanism instance, one variant per mechanism.
pub enum Mech {
    Hmac(HmacDrbgMech),
    Hash(HashDrbgMech),
    Ctr(CtrDrbgMech),
}

/// The output bytes that `generate` produces from a given mechanism state:
/// the envelope's deterministic path forwards to the mechanism unchanged.
pub open spec fn mech_gen_out(m: Mech, n: nat, add: Option<Seq<u8>>) -> Seq<u8> {
    match m {
        Mech::Hmac(h) => hmac_mech::spec_generate(h@.alg, h@.k, h@.v, n, add).0,
        Mech::Hash(h) => hash_mech::spec_generate(h@.alg, h@.v, h@.c, h@.count, n, add).0,
        Mech::Ctr(c) => ctr_mech::spec_generate(c@.alg, c@.k, c@.v, n, add).0,
    }
}

/// Whether `m2` is exactly the successor state of `m` after a generate of
/// `n` bytes with additional input `add`, as each mechanism's transition
/// prescribes.
pub open spec fn mech_gen_next(m: Mech, n: nat, add: Option<Seq<u8>>, m2: Mech) -> bool {
    match (m, m2) {
        (Mech::Hmac(a), Mech::Hmac(b)) => {
            let g = hmac_mech::spec_generate(a@.alg, a@.k, a@.v, n, add);
            &&& b@.alg == a@.alg
            &&& b@.k == g.1
            &&& b@.v == g.2
            &&& b@.count == a@.count + 1
            &&& b@.zeroized == false
        },
        (Mech::Hash(a), Mech::Hash(b)) => {
            let g = hash_mech::spec_generate(a@.alg, a@.v, a@.c, a@.count, n, add);
            &&& b@.alg == a@.alg
            &&& b@.v == g.1
            &&& b@.c == a@.c
            &&& b@.count == a@.count + 1
            &&& b@.zeroized == false
        },
        (Mech::Ctr(a), Mech::Ctr(b)) => {
            let g = ctr_mech::spec_generate(a@.alg, a@.k, a@.v, n, add);
            &&& b@.alg == a@.alg
            &&& b@.k == g.1
            &&& b@.v == g.2
            &&& b@.count == a@.count + 1
            &&& b@.zeroized == false
        },
        _ => false,
    }
}

/// A DRBG envelope: a mechanism instance plus the validated security
/// strength it was born with.
pub struct Drbg {
    mech: Mech,
    sec_str: usize,
}

impl Drbg {
    /// The mechanism instance held by the envelope.
    pub closed spec fn spec_mech(self) -> Mech {
        self.mech
    }

    /// Which mechanism and primitive the envelope runs.
    pub closed spec fn spec_kind(self) -> MechKind {
        match self.mech {
            Mech::Hmac(m) => match m@.alg {
                HashAlg::Sha256 => MechKind::HmacSha256,
                HashAlg::Sha512 => MechKind::HmacSha512,
            },
            Mech::Hash(m) => match m@.alg {
                HashAlg::Sha256 => MechKind::HashSha256,
                HashAlg::Sha512 => MechKind::HashSha512,
            },
            Mech::Ctr(m) => match m@.alg {
                AesAlg::Aes128 => MechKind::CtrAes128,
                AesAlg::Aes192 => MechKind::CtrAes192,
                AesAlg::Aes256 => MechKind::CtrAes256,
            },
        }
    }

    /// The validated security strength, in bits.
    pub closed spec fn spec_sec_str(self) -> nat {
        self.sec_str as nat
    }

    /// Whether the contained mechanism has been destroyed.
    pub closed spec fn spec_zeroized(self) -> bool {
        match self.mech {
            Mech::Hmac(m) => m@.zeroized,
            Mech::Hash(m) => m@.zeroized,
            Mech::Ctr(m) => m@.zeroized,
        }
    }

    /// The mechanism's reseed counter.
    pub closed spec fn spec_count(self) -> nat {
        match self.mech {
            Mech::Hmac(m) => m@.count,
            Mech::Hash(m) => m@.count,
            Mech::Ctr(m) => m@.count,
        }
    }

    /// Whether the mechanism's seed life is exhausted.
    pub open spec fn spec_reseed_needed(self) -> bool {
        self.spec_count() >= hmac_mech::SEED_LIFE
    }

    /// Whether every secret byte of the mechanism is zero.
    pub closed spec fn spec_wiped(self) -> bool {
        match self.mech {
            Mech::Hmac(m) => m@.k == repeat_byte(0, m@.k.len()) && m@.v == repeat_byte(
                0,
                m@.v.len(),
            ),
            Mech::Hash(m) => m@.v == repeat_byte(0, m@.v.len()) && m@.c == repeat_byte(
                0,
                m@.c.len(),
            ),
            Mech::Ctr(m) => m@.k == repeat_byte(0, m@.k.len()) && m@.v == repeat_byte(
                0,
                m@.v.len(),
            ),
        }
    }

    /// The envelope is valid: the mechanism's own invariant holds, the
    /// stored strength lies in `[112, 256]` and never exceeds what the
    /// mechanism supports.
    pub closed spec fn inv(self) -> bool {
        &&& match self.mech {
            Mech::Hmac(m) => m@.inv(),
            Mech::Hash(m) => m@.inv(),
            Mech::Ctr(m) => m@.inv(),
        }
        &&& MIN_SEC_STR <= self.sec_str <= MAX_SEC_STR
        &&& self.sec_str as nat <= kind_strength(self.spec_kind())
    }

    /// Instantiates an envelope over the chosen mechanism. Fails with 1 when
    /// the strength lies outside `[112, 256]`, with 2 when the
    /// personalization string is over 32 bytes, with 3 when the mechanism
    /// itself rejects the request (a CTR cipher whose key is shorter than
    /// the requested strength).
    pub fn new(kind: MechKind, sec_str: usize, pers: Option<&[u8]>) -> (r: Result<Drbg, usize>)
        ensures
            (r is Ok) <==> (MIN_SEC_STR <= sec_str <= MAX_SEC_STR && opt_len(pers) <= MAX_IN_LEN
                && sec_str as nat <= kind_strength(kind)),
            r matches Err(e) ==> e == (if !(MIN_SEC_STR <= sec_str <= MAX_SEC_STR) {
                1int
            } else if opt_len(pers) > MAX_IN_LEN {
                2int
            } else {
                3int
            }),
            r matches Ok(d) ==> {
                &&& d.inv()
                &&& d.spec_kind() == kind
                &&& d.spec_sec_str() == sec_str
                &&& !d.spec_zeroized()
                &&& d.spec_count() == 1
            },
    {
        // The strength must lie in the supported interval.
        if sec_str < MIN_SEC_STR || sec_str > MAX_SEC_STR {
            return Err(1);
        }

        // The personalization string is capped by local policy.
        if let Some(p) = pers {
            if p.len() > MAX_IN_LEN {
                return Err(2);
            }
        }
        let empty: Vec<u8> = Vec::new();
        let ps: &[u8] = match pers {
            Some(p) => p,
            None => empty.as_slice(),
        };

        // Pull entropy and nonce as the mechanism requires, then hand them
        // to the mechanism's instantiation.
        let mut req = sec_str;
        match kind {
            MechKind::HmacSha256 => {
                let entropy = get_entropy(32);
                let nonce = get_entropy(16);
                match HmacDrbgMech::new(
                    HashAlg::Sha256,
                    entropy.as_slice(),
                    nonce.as_slice(),
                    ps,
                    &mut req,
                ) {
                    Some(m) => Ok(Drbg { mech: Mech::Hmac(m), sec_str }),
                    None => Err(3),
                }
            },
            MechKind::HmacSha512 => {
                let entropy = get_entropy(32);
                let nonce = get_entropy(16);
                match HmacDrbgMech::new(
                    HashAlg::Sha512,
                    entropy.as_slice(),
                    nonce.as_slice(),
                    ps,
                    &mut req,
                ) {
                    Some(m) => Ok(Drbg { mech: Mech::Hmac(m), sec_str }),
                    None => Err(3),
                }
            },
            MechKind::HashSha256 => {
                let entropy = get_entropy(32);
                let nonce = get_entropy(16);
                match HashDrbgMech::new(
                    HashAlg::Sha256,
                    entropy.as_slice(),
                    nonce.as_slice(),
                    ps,
                    &mut req,
                ) {
                    Some(m) => Ok(Drbg { mech: Mech::Hash(m), sec_str }),
                    None => Err(3),
                }
            },
            MechKind::HashSha512 => {
                let entropy = get_entropy(32);
                let nonce = get_entropy(16);
                match HashDrbgMech::new(
                    HashAlg::Sha512,
                    entropy.as_slice(),
                    nonce.as_slice(),
                    ps,
                    &mut req,
                ) {
                    Some(m) => Ok(Drbg { mech: Mech::Hash(m), sec_str }),
                    None => Err(3),
                }
            },
            MechKind::CtrAes128 => {
                let entropy = get_entropy(32);
                match CtrDrbgMech::new(
                    AesAlg::Aes128,
                    entropy.as_slice(),
                    empty.as_slice(),
                    ps,
                    &mut req,
                ) {
                    Some(m) => Ok(Drbg { mech: Mech::Ctr(m), sec_str }),
                    None => Err(3),
                }
            },
            MechKind::CtrAes192 => {
                let entropy = get_entropy(40);
                match CtrDrbgMech::new(
                    AesAlg::Aes192,
                    entropy.as_slice(),
                    empty.as_slice(),
                    ps,
                    &mut req,
                ) {
                    Some(m) => Ok(Drbg { mech: Mech::Ctr(m), sec_str }),
                    None => Err(3),
                }
            },
            MechKind::CtrAes256 => {
                let entropy = get_entropy(48);
                match CtrDrbgMech::new(
                    AesAlg::Aes256,
                    entropy.as_slice(),
                    empty.as_slice(),
                    ps,
                    &mut req,
                ) {
                    Some(m) => Ok(Drbg { mech: Mech::Ctr(m), sec_str }),
                    None => Err(3),
                }
            },
        }
    }

    /// Generates `n` bytes at strength `sec_str`. The output vector is
    /// cleared first; it holds exactly `n` bytes on success and stays empty
    /// on failure. With `pr` (prediction resistance), or once the seed life
    /// is exhausted, the mechanism is first reseeded with fresh entropy (the
    /// additional input is consumed there) and the counter restarts.
    /// Returns 1 on a destroyed instance, 2 when too many bytes are asked
    /// for, 3 when the strength exceeds the instance's, 4 when the
    /// additional input is over 32 bytes, 0 on success.
    pub fn generate(
        &mut self,
        result: &mut Vec<u8>,
        n: usize,
        sec_str: usize,
        pr: bool,
        add: Option<&[u8]>,
    ) -> (r: usize)
        requires
            old(self).inv(),
        ensures
            final(self).inv(),
            final(self).spec_kind() == old(self).spec_kind(),
            final(self).spec_sec_str() == old(self).spec_sec_str(),
            (r == 1) <==> old(self).spec_zeroized(),
            (r == 2) <==> (!old(self).spec_zeroized() && n > MAX_PER_REQUEST),
            (r == 3) <==> (!old(self).spec_zeroized() && n <= MAX_PER_REQUEST && sec_str as nat
                > old(self).spec_sec_str()),
            (r == 4) <==> (!old(self).spec_zeroized() && n <= MAX_PER_REQUEST && sec_str as nat
                <= old(self).spec_sec_str() && opt_len(add) > MAX_IN_LEN),
            (r == 0) <==> (!old(self).spec_zeroized() && n <= MAX_PER_REQUEST && sec_str as nat
                <= old(self).spec_sec_str() && opt_len(add) <= MAX_IN_LEN),
            r != 0 ==> *final(self) == *old(self) && final(result)@.len() == 0,
            r == 0 ==> final(result)@.len() == n && !final(self).spec_zeroized(),
            r == 0 && (pr || old(self).spec_reseed_needed()) ==> final(self).spec_count() == 2,
            r == 0 && !(pr || old(self).spec_reseed_needed()) ==> final(self).spec_count() == old(
                self,
            ).spec_count() + 1 && final(result)@ == mech_gen_out(
                old(self).spec_mech(),
                n as nat,
                opt_bytes(add),
            ) && mech_gen_next(
                old(self).spec_mech(),
                n as nat,
                opt_bytes(add),
                final(self).spec_mech(),
            ),
    {
        // The output vector is cleared before anything else.
        if !result.is_empty() {
            result.clear();
        }

        // A destroyed instance is inert.
        let z = match &self.mech {
            Mech::Hmac(m) => m._is_zeroized(),
            Mech::Hash(m) => m._is_zeroized(),
            Mech::Ctr(m) => m._is_zeroized(),
        };
        if z {
            return 1;
        }

        // The request size, the strength and the additional input are
        // validated once, here.
        if n > MAX_PER_REQUEST {
            return 2;
        }
        if sec_str > self.sec_str {
            return 3;
        }
        if let Some(a) = add {
            if a.len() > MAX_IN_LEN {
                return 4;
            }
        }

        // A forced reseed: fresh entropy, the additional input is consumed
        // by the reseed, and the generate below runs without it.
        let needs_reseed = pr || match &self.mech {
            Mech::Hmac(m) => m.reseed_needed(),
            Mech::Hash(m) => m.reseed_needed(),
            Mech::Ctr(m) => m.reseed_needed(),
        };
        if needs_reseed {
            match &mut self.mech {
                Mech::Hmac(m) => {
                    let entropy = get_entropy(32);
                    let rr = m.reseed(entropy.as_slice(), add);
                    if rr != 0 {
                        return rr;
                    }
                    m.generate(result, n, None)
                },
                Mech::Hash(m) => {
                    let entropy = get_entropy(32);
                    let rr = m.reseed(entropy.as_slice(), add);
                    if rr != 0 {
                        return rr;
                    }
                    m.generate(result, n, None)
                },
                Mech::Ctr(m) => {
                    let sl = m.seedlen();
                    let entropy = get_entropy(sl);
                    let rr = m.reseed(entropy.as_slice(), add);
                    if rr != 0 {
                        return rr;
                    }
                    m.generate(result, n, None)
                },
            }
        } else {
            match &mut self.mech {
                Mech::Hmac(m) => m.generate(result, n, add),
                Mech::Hash(m) => m.generate(result, n, add),
                Mech::Ctr(m) => m.generate(result, n, add),
            }
        }
    }

    /// Reseeds the contained mechanism with fresh entropy and the optional
    /// additional input. Returns 1 on a destroyed instance, 2 when the
    /// additional input is over 32 bytes, 0 on success, with the reseed
    /// counter back at 1.
    pub fn reseed(&mut self, add: Option<&[u8]>) -> (r: usize)
        requires
            old(self).inv(),
        ensures
            final(self).inv(),
            final(self).spec_kind() == old(self).spec_kind(),
            final(self).spec_sec_str() == old(self).spec_sec_str(),
            (r == 1) <==> old(self).spec_zeroized(),
            (r == 2) <==> (!old(self).spec_zeroized() && opt_len(add) > MAX_IN_LEN),
            (r == 0) <==> (!old(self).spec_zeroized() && opt_len(add) <= MAX_IN_LEN),
            r != 0 ==> *final(self) == *old(self),
            r == 0 ==> final(self).spec_count() == 1 && !final(self).spec_zeroized(),
    {
        // A destroyed instance is inert.
        let z = match &self.mech {
            Mech::Hmac(m) => m._is_zeroized(),
            Mech::Hash(m) => m._is_zeroized(),
            Mech::Ctr(m) => m._is_zeroized(),
        };
        if z {
            return 1;
        }

        // The additional input is capped by local policy.
        if let Some(a) = add {
            if a.len() > MAX_IN_LEN {
                return 2;
            }
        }

        // Fresh entropy, as much as the mechanism requires.
        match &mut self.mech {
            Mech::Hmac(m) => {
                let entropy = get_entropy(32);
                m.reseed(entropy.as_slice(), add)
            },
            Mech::Hash(m) => {
                let entropy = get_entropy(32);
                m.reseed(entropy.as_slice(), add)
            },
            Mech::Ctr(m) => {
                let sl = m.seedlen();
                let entropy = get_entropy(sl);
                m.reseed(entropy.as_slice(), add)
            },
        }
    }

    /// Destroys the contained mechanism: every secret byte is overwritten
    /// with zero. Returns 1 if it was already destroyed.
    pub fn uninstantiate(&mut self) -> (r: usize)
        requires
            old(self).inv(),
        ensures
            final(self).inv(),
            final(self).spec_kind() == old(self).spec_kind(),
            final(self).spec_sec_str() == old(self).spec_sec_str(),
            (r == 1) <==> old(self).spec_zeroized(),
            old(self).spec_zeroized() ==> *final(self) == *old(self),
            !old(self).spec_zeroized() ==> r == 0,
            final(self).spec_zeroized(),
            final(self).spec_wiped(),
            final(self).spec_count() == 0,
    {
        match &mut self.mech {
            Mech::Hmac(m) => m.zeroize(),
            Mech::Hash(m) => m.zeroize(),
            Mech::Ctr(m) => m.zeroize(),
        }
    }

    /// Runs the full self-test battery: the stored known-answer vectors of
    /// every mechanism and the envelope's negative-path checks. Returns the
    /// number of failing tests; the negative-path checks are verified to
    /// pass, so only a failing vector can raise the count.
    pub fn run_self_tests(&self) -> (r: usize)
        ensures
            r <= 7,
            r == 0 <==> (crate::self_tests::mech_tests::nist_vectors::vectors_ok(
                MechKind::HmacSha256,
            ) && crate::self_tests::mech_tests::nist_vectors::vectors_ok(MechKind::HashSha256)
                && crate::self_tests::mech_tests::nist_vectors::vectors_ok(MechKind::CtrAes128)
                && crate::self_tests::mech_tests::nist_vectors::vectors_ok(MechKind::CtrAes256)),
    {
        crate::self_tests::run_tests::run_all()
    }

    /// The validated security strength, in bits.
    pub fn get_sec_str(&self) -> (r: usize)
        ensures
            r as nat == self.spec_sec_str(),
    {
        self.sec_str
    }

    /// The most bytes one generate request may return.
    pub fn get_max_pbr(&self) -> (r: usize)
        ensures
            r == MAX_PER_REQUEST,
    {
        MAX_PER_REQUEST
    }

    /// The mechanism's reseed counter.
    pub fn get_count(&self) -> (r: usize)
        ensures
            r as nat == self.spec_count(),
    {
        match &self.mech {
            Mech::Hmac(m) => m.count(),
            Mech::Hash(m) => m.count(),
            Mech::Ctr(m) => m.count(),
        }
    }

    /// Whether the contained mechanism has been destroyed.
    pub fn is_zeroized(&self) -> (r: bool)
        ensures
            r == self.spec_zeroized(),
    {
        match &self.mech {
            Mech::Hmac(m) => m._is_zeroized(),
            Mech::Hash(m) => m._is_zeroized(),
            Mech::Ctr(m) => m._is_zeroized(),
        }
    }

    /// Whether every secret byte of the contained mechanism is zero.
    pub fn secrets_wiped(&self) -> (r: bool)
        ensures
            r == self.spec_wiped(),
    {
        match &self.mech {
            Mech::Hmac(m) => m.secrets_wiped(),
            Mech::Hash(m) => m.secrets_wiped(),
            Mech::Ctr(m) => m.secrets_wiped(),
        }
    }
}

} // verus!
