//! The HMAC-DRBG mechanism of NIST SP 800-90A §10.1.2, over SHA-256 or
//! SHA-512. Both hash functions support a security strength of 256 bits, so
//! every instance carries that strength.
//!
//! The secret state is the pair `(K, V)` of `hashlen`-byte strings; `count`
//! is the reseed counter and `zeroized` tells an instance that has been
//! destroyed. Every operation's contract pins the new state and the output
//! down as functions of the old state through [`spec_hmac`].

use crate::mechs::primitives::{hash_len, hash_len_exec, hmac, spec_hmac, HashAlg};
use crate::mechs::utility::{opt_bytes, repeat_byte, repeat_bytes, zero_fill};
use vstd::prelude::*;

verus! {

/// The number of generate calls a seed may serve before a reseed is forced.
pub const SEED_LIFE: usize = 1000;

/// Mathematical model of an HMAC-DRBG instance.
pub struct HmacState {
    pub k: Seq<u8>,
    pub v: Seq<u8>,
    pub count: nat,
    pub zeroized: bool,
    pub sec_str: nat,
    pub alg: HashAlg,
}

impl HmacState {
    /// The instance is in exactly one of two phases: active, with both
    /// secrets of `hashlen` bytes and `1 <= count <= SEED_LIFE`, or
    /// destroyed, with every secret byte zero and `count == 0`.
    pub open spec fn inv(self) -> bool {
        &&& self.k.len() == hash_len(self.alg)
        &&& self.v.len() == hash_len(self.alg)
        &&& self.sec_str == 256
        &&& self.count <= SEED_LIFE
        &&& (self.zeroized ==> self.k == repeat_byte(0, hash_len(self.alg)) && self.v
            == repeat_byte(0, hash_len(self.alg)) && self.count == 0)
        &&& (!self.zeroized ==> 1 <= self.count)
    }
}

/// The HMAC-DRBG update of `(K, V)` by an optional seed string
/// (SP 800-90A §10.1.2.2).
pub open spec fn spec_update(alg: HashAlg, k: Seq<u8>, v: Seq<u8>, seed: Option<Seq<u8>>) -> (
    Seq<u8>,
    Seq<u8>,
) {
    match seed {
        None => {
            let k1 = spec_hmac(alg, k, v.push(0x00));
            let v1 = spec_hmac(alg, k1, v);
            (k1, v1)
        },
        Some(s) => {
            let k1 = spec_hmac(alg, k, v.push(0x00) + s);
            let v1 = spec_hmac(alg, k1, v);
            let k2 = spec_hmac(alg, k1, v1.push(0x01) + s);
            let v2 = spec_hmac(alg, k2, v1);
            (k2, v2)
        },
    }
}

/// The first `req` bytes of the HMAC-DRBG output stream from state `(k, v)`:
/// each round sets `V <- HMAC(K, V)` and emits `V`.
pub open spec fn spec_gen_out(alg: HashAlg, k: Seq<u8>, v: Seq<u8>, req: nat) -> Seq<u8>
    decreases req,
{
    if req == 0 {
        Seq::empty()
    } else {
        let v1 = spec_hmac(alg, k, v);
        if req <= hash_len(alg) {
            v1.take(req as int)
        } else {
            v1 + spec_gen_out(alg, k, v1, (req - hash_len(alg)) as nat)
        }
    }
}

/// The value of `V` after generating `req` bytes from state `(k, v)`.
pub open spec fn spec_gen_v(alg: HashAlg, k: Seq<u8>, v: Seq<u8>, req: nat) -> Seq<u8>
    decreases req,
{
    if req == 0 {
        v
    } else {
        let v1 = spec_hmac(alg, k, v);
        if req <= hash_len(alg) {
            v1
        } else {
            spec_gen_v(alg, k, v1, (req - hash_len(alg)) as nat)
        }
    }
}

/// The full generate transition (SP 800-90A §10.1.2.5): the output bytes and
/// the new `(K, V)`.
pub open spec fn spec_generate(
    alg: HashAlg,
    k: Seq<u8>,
    v: Seq<u8>,
    req: nat,
    add: Option<Seq<u8>>,
) -> (Seq<u8>, Seq<u8>, Seq<u8>) {
    let kv1 = match add {
        Some(a) => spec_update(alg, k, v, Some(a)),
        None => (k, v),
    };
    let out = spec_gen_out(alg, kv1.0, kv1.1, req);
    let vg = spec_gen_v(alg, kv1.0, kv1.1, req);
    let kv2 = spec_update(alg, kv1.0, vg, add);
    (out, kv2.0, kv2.1)
}

/// The state derived by instantiation (SP 800-90A §10.1.2.3):
/// `K = 0x00...00`, `V = 0x01...01`, updated with `entropy || nonce || pers`.
pub open spec fn spec_new_state(alg: HashAlg, entropy: Seq<u8>, nonce: Seq<u8>, pers: Seq<u8>) -> (
    Seq<u8>,
    Seq<u8>,
) {
    spec_update(
        alg,
        repeat_byte(0x00, hash_len(alg)),
        repeat_byte(0x01, hash_len(alg)),
        Some(entropy + nonce + pers),
    )
}

/// The reseed transition (SP 800-90A §10.1.2.4): update with
/// `entropy || add`.
pub open spec fn spec_reseed(
    alg: HashAlg,
    k: Seq<u8>,
    v: Seq<u8>,
    entropy: Seq<u8>,
    add: Option<Seq<u8>>,
) -> (Seq<u8>, Seq<u8>) {
    spec_update(
        alg,
        k,
        v,
        Some(
            entropy + match add {
                Some(a) => a,
                None => Seq::empty(),
            },
        ),
    )
}

/// An HMAC-DRBG instance.
pub struct HmacDrbgMech {
    k: Vec<u8>,
    v: Vec<u8>,
    count: usize,
    zeroized: bool,
    sec_str: usize,
    alg: HashAlg,
}

impl View for HmacDrbgMech {
    type V = HmacState;

    closed spec fn view(&self) -> HmacState {
        HmacState {
            k: self.k@,
            v: self.v@,
            count: self.count as nat,
            zeroized: self.zeroized,
            sec_str: self.sec_str as nat,
            alg: self.alg,
        }
    }
}

impl HmacDrbgMech {
    /// Updates the internal state with an optional seed string
    /// (SP 800-90A §10.1.2.2).
    fn update(&mut self, seed: Option<&[u8]>)
        requires
            old(self).k@.len() == hash_len(old(self).alg),
            old(self).v@.len() == hash_len(old(self).alg),
        ensures
            (final(self).k@, final(self).v@) == spec_update(
                old(self).alg,
                old(self).k@,
                old(self).v@,
                opt_bytes(seed),
            ),
            final(self).k@.len() == hash_len(old(self).alg),
            final(self).v@.len() == hash_len(old(self).alg),
            final(self).count == old(self).count,
            final(self).zeroized == old(self).zeroized,
            final(self).sec_str == old(self).sec_str,
            final(self).alg == old(self).alg,
    {
        let ghost v0 = self.v@;
        // K <- HMAC(K, V || 0x00 || seed) (step 1)
        let mut msg: Vec<u8> = Vec::new();
        msg.extend_from_slice(self.v.as_slice());
        msg.push(0x00);
        if let Some(s) = seed {
            msg.extend_from_slice(s);
            proof {
                assert(msg@ =~= v0.push(0x00) + s@);
            }
        } else {
            proof {
                assert(msg@ =~= v0.push(0x00));
            }
        }
        let nk = hmac(self.alg, &self.k, &msg);
        self.k = nk;
        // V <- HMAC(K, V) (step 2)
        let nv = hmac(self.alg, &self.k, &self.v);
        self.v = nv;
        // Without a seed the update is complete (step 3).
        if let Some(s) = seed {
            let ghost v1 = self.v@;
            // K <- HMAC(K, V || 0x01 || seed) (step 4)
            let mut msg2: Vec<u8> = Vec::new();
            msg2.extend_from_slice(self.v.as_slice());
            msg2.push(0x01);
            msg2.extend_from_slice(s);
            proof {
                assert(msg2@ =~= v1.push(0x01) + s@);
            }
            let nk2 = hmac(self.alg, &self.k, &msg2);
            self.k = nk2;
            // V <- HMAC(K, V) (step 5)
            let nv2 = hmac(self.alg, &self.k, &self.v);
            self.v = nv2;
        }
    }

    /// Instantiates the mechanism (SP 800-90A §10.1.2.3). The requested
    /// strength is coerced up to the fixed 256 bits; a request beyond 256
    /// bits fails, as do entropy under 32 bytes and a nonce under 16 bytes.
    pub fn new(alg: HashAlg, entropy: &[u8], nonce: &[u8], pers: &[u8], req_str: &mut usize) -> (r:
        Option<HmacDrbgMech>)
        ensures
            *final(req_str) == if *old(req_str) <= 256 {
                256int
            } else {
                *old(req_str) as int
            },
            (r is Some) <==> (*old(req_str) <= 256 && entropy@.len() >= 32 && nonce@.len() >= 16),
            r matches Some(m) ==> {
                &&& m@.inv()
                &&& m@.alg == alg
                &&& m@.zeroized == false
                &&& m@.count == 1
                &&& m@.sec_str == 256
                &&& (m@.k, m@.v) == spec_new_state(alg, entropy@, nonce@, pers@)
            },
    {
        // Security strength beyond what the hash supports is rejected.
        if *req_str > 256 {
            return None;
        }
        *req_str = 256;

        // Entropy and nonce must be long enough for that strength.
        if entropy.len() < 32 || nonce.len() < 16 {
            return None;
        }

        // Initial values of the internal state (steps 2, 3).
        let hl = hash_len_exec(alg);
        let k = repeat_bytes(0x00, hl);
        let v = repeat_bytes(0x01, hl);
        let mut this = HmacDrbgMech { k, v, count: 0, zeroized: false, sec_str: 256, alg };

        // Update with entropy || nonce || pers (steps 1, 4).
        let mut seed: Vec<u8> = Vec::new();
        seed.extend_from_slice(entropy);
        seed.extend_from_slice(nonce);
        seed.extend_from_slice(pers);
        proof {
            assert(seed@ =~= entropy@ + nonce@ + pers@);
        }
        this.update(Some(seed.as_slice()));

        // Initialise the reseed counter (step 5).
        this.count = 1;
        Some(this)
    }

    /// Generates `req_bytes` bytes (SP 800-90A §10.1.2.5). The output vector
    /// is cleared first; it holds exactly `req_bytes` bytes on success and
    /// stays empty on failure. Returns 1 on a destroyed instance, 2 once the
    /// seed life is exhausted, 0 otherwise.
    pub fn generate(&mut self, result: &mut Vec<u8>, req_bytes: usize, add: Option<&[u8]>) -> (r:
        usize)
        requires
            old(self)@.inv(),
            req_bytes <= usize::MAX - 64,
        ensures
            final(self)@.inv(),
            final(self)@.alg == old(self)@.alg,
            final(self)@.sec_str == old(self)@.sec_str,
            (r == 1) <==> old(self)@.zeroized,
            (r == 2) <==> (!old(self)@.zeroized && old(self)@.count >= SEED_LIFE),
            (r == 0) <==> (!old(self)@.zeroized && old(self)@.count < SEED_LIFE),
            r != 0 ==> *final(self) == *old(self) && final(result)@ == Seq::<u8>::empty(),
            r == 0 ==> ({
                let g = spec_generate(
                    old(self)@.alg,
                    old(self)@.k,
                    old(self)@.v,
                    req_bytes as nat,
                    opt_bytes(add),
                );
                &&& final(result)@ == g.0
                &&& final(result)@.len() == req_bytes
                &&& final(self)@.k == g.1
                &&& final(self)@.v == g.2
                &&& final(self)@.count == old(self)@.count + 1
                &&& final(self)@.zeroized == false
            }),
    {
        // The output vector is cleared before anything else.
        if !result.is_empty() {
            result.clear();
        }

        // No generation on a destroyed instance.
        if self.zeroized {
            return 1;
        }

        // The seed life is exhausted: a reseed must intervene (step 1).
        if self.count >= SEED_LIFE {
            return 2;
        }

        let ghost alg = self.alg;
        let ghost c0 = self.count as nat;
        let ghost s0 = self.sec_str as nat;

        // Mix the additional input into the state (step 2).
        match add {
            Some(a) => self.update(Some(a)),
            None => {},
        }
        let ghost k1 = self.k@;
        let ghost v1 = self.v@;

        // Emit V <- HMAC(K, V) until enough bytes are produced (step 4).
        let hl = hash_len_exec(self.alg);
        let mut i: usize = 0;
        while i < req_bytes
            invariant
                hl as nat == hash_len(alg),
                1 <= hl <= 64,
                req_bytes <= usize::MAX - 64,
                i <= req_bytes + 64,
                self.alg == alg,
                self.count == c0,
                self.sec_str == s0,
                self.zeroized == false,
                self.k@ == k1,
                self.k@.len() == hash_len(alg),
                self.v@.len() == hash_len(alg),
                result@.len() == (if i <= req_bytes {
                    i as int
                } else {
                    req_bytes as int
                }),
                spec_gen_out(alg, k1, v1, req_bytes as nat) == result@ + spec_gen_out(
                    alg,
                    k1,
                    self.v@,
                    (req_bytes - result@.len()) as nat,
                ),
                spec_gen_v(alg, k1, v1, req_bytes as nat) == spec_gen_v(
                    alg,
                    k1,
                    self.v@,
                    (req_bytes - result@.len()) as nat,
                ),
            decreases req_bytes + 64 - i,
        {
            let ghost rem0 = (req_bytes - i) as nat;
            let nv = hmac(self.alg, &self.k, &self.v);
            self.v = nv;
            let ghost res0 = result@;
            let mut j: usize = 0;
            while j < hl && i + j < req_bytes
                invariant
                    j <= hl,
                    hl as nat == self.v@.len(),
                    i + j <= req_bytes,
                    i < req_bytes,
                    req_bytes <= usize::MAX - 64,
                    result@ == res0 + self.v@.take(j as int),
                decreases hl - j,
            {
                let b = self.v[j];
                result.push(b);
                proof {
                    assert(result@ =~= res0 + self.v@.take(j + 1));
                }
                j += 1;
            }
            proof {
                assert(res0 + self.v@.take(0) =~= res0);
                if rem0 <= hl as nat {
                    // the final, possibly partial, block
                    assert(j == rem0);
                    assert(spec_gen_out(alg, k1, v1, req_bytes as nat) == res0 + self.v@.take(
                        rem0 as int,
                    ));
                    assert(spec_gen_out(alg, k1, self.v@, 0) =~= Seq::<u8>::empty());
                    assert(result@ + spec_gen_out(alg, k1, self.v@, 0) =~= result@);
                } else {
                    // a whole block was appended
                    assert(j == hl);
                    assert(self.v@.take(hl as int) =~= self.v@);
                }
            }
            i += hl;
        }
        proof {
            assert(result@.len() == req_bytes);
            assert(result@ + spec_gen_out(alg, k1, self.v@, 0) =~= result@);
            assert(result@ == spec_gen_out(alg, k1, v1, req_bytes as nat));
            assert(self.v@ == spec_gen_v(alg, k1, v1, req_bytes as nat));
        }

        // Update the internal state one final time (step 6).
        match add {
            Some(a) => self.update(Some(a)),
            None => self.update(None),
        }

        // Update the reseed counter (step 7).
        self.count = self.count + 1;
        0
    }

    /// Reseeds the instance (SP 800-90A §10.1.2.4). Returns 1 on a destroyed
    /// instance, 2 when the entropy is under 32 bytes, 0 on success, with the
    /// reseed counter back at 1.
    pub fn reseed(&mut self, entropy: &[u8], add: Option<&[u8]>) -> (r: usize)
        requires
            old(self)@.inv(),
        ensures
            final(self)@.inv(),
            final(self)@.alg == old(self)@.alg,
            final(self)@.sec_str == old(self)@.sec_str,
            (r == 1) <==> old(self)@.zeroized,
            (r == 2) <==> (!old(self)@.zeroized && entropy@.len() < 32),
            (r == 0) <==> (!old(self)@.zeroized && entropy@.len() >= 32),
            r != 0 ==> *final(self) == *old(self),
            r == 0 ==> ({
                let kv = spec_reseed(
                    old(self)@.alg,
                    old(self)@.k,
                    old(self)@.v,
                    entropy@,
                    opt_bytes(add),
                );
                &&& final(self)@.k == kv.0
                &&& final(self)@.v == kv.1
                &&& final(self)@.count == 1
                &&& final(self)@.zeroized == false
            }),
    {
        // Nothing to be done on a destroyed instance.
        if self.zeroized {
            return 1;
        }

        // The entropy must cover the supported strength.
        if entropy.len() < self.sec_str / 8 {
            return 2;
        }

        // Update with entropy || add (steps 1, 2).
        let mut seed: Vec<u8> = Vec::new();
        seed.extend_from_slice(entropy);
        if let Some(a) = add {
            seed.extend_from_slice(a);
            proof {
                assert(seed@ =~= entropy@ + a@);
            }
        } else {
            proof {
                assert(seed@ =~= entropy@ + Seq::<u8>::empty());
            }
        }
        self.update(Some(seed.as_slice()));

        // Reset the counter (step 3).
        self.count = 1;
        0
    }

    /// Destroys the instance: every secret byte is overwritten with zero.
    /// Returns 1 if the instance was already destroyed.
    pub fn zeroize(&mut self) -> (r: usize)
        requires
            old(self)@.inv(),
        ensures
            final(self)@.inv(),
            final(self)@.alg == old(self)@.alg,
            final(self)@.sec_str == old(self)@.sec_str,
            (r == 1) <==> old(self)@.zeroized,
            old(self)@.zeroized ==> *final(self) == *old(self),
            !old(self)@.zeroized ==> r == 0,
            final(self)@.zeroized,
            final(self)@.k == repeat_byte(0, hash_len(old(self)@.alg)),
            final(self)@.v == repeat_byte(0, hash_len(old(self)@.alg)),
            final(self)@.count == 0,
    {
        if self.zeroized {
            return 1;
        }
        zero_fill(&mut self.k);
        zero_fill(&mut self.v);
        self.count = 0;
        self.zeroized = true;
        0
    }

    /// The reseed counter.
    pub fn count(&self) -> (r: usize)
        ensures
            r as nat == self@.count,
    {
        self.count
    }

    /// True once the seed life is exhausted: the next generate needs a
    /// reseed first.
    pub fn reseed_needed(&self) -> (r: bool)
        ensures
            r == (self@.count >= SEED_LIFE),
    {
        self.count >= SEED_LIFE
    }

    /// Whether the instance has been destroyed.
    pub fn _is_zeroized(&self) -> (r: bool)
        ensures
            r == self@.zeroized,
    {
        self.zeroized
    }

    /// Whether both secrets hold only zero bytes.
    pub fn secrets_wiped(&self) -> (r: bool)
        ensures
            r == (self@.k == repeat_byte(0, self@.k.len()) && self@.v == repeat_byte(
                0,
                self@.v.len(),
            )),
    {
        let mut i: usize = 0;
        let n = self.k.len();
        while i < n
            invariant
                i <= n,
                n == self.k@.len(),
                forall|t: int| 0 <= t < i ==> self.k@[t] == 0u8,
            decreases n - i,
        {
            if self.k[i] != 0 {
                proof {
                    assert(self.k@ != repeat_byte(0, self.k@.len()));
                }
                return false;
            }
            i += 1;
        }
        let mut j: usize = 0;
        let m = self.v.len();
        while j < m
            invariant
                j <= m,
                m == self.v@.len(),
                forall|t: int| 0 <= t < j ==> self.v@[t] == 0u8,
            decreases m - j,
        {
            if self.v[j] != 0 {
                proof {
                    assert(self.v@ != repeat_byte(0, self.v@.len()));
                }
                return false;
            }
            j += 1;
        }
        proof {
            assert(self.k@ =~= repeat_byte(0, self.k@.len()));
            assert(self.v@ =~= repeat_byte(0, self.v@.len()));
        }
        true
    }

    /// The mechanism's name.
    pub fn drbg_name() -> (r: String)
        ensures
            r@ == "HMAC-DRBG"@,
    {
        "HMAC-DRBG".to_string()
    }

    /// The number of generate calls a seed may serve.
    pub fn seed_life() -> (r: usize)
        ensures
            r == SEED_LIFE,
    {
        SEED_LIFE
    }
}

/// Determinism law: two instances instantiated with identical entropy,
/// nonce and personalization strings hold identical state; and two
/// instances in identical states, driven by the same generate or reseed
/// arguments, produce identical outputs and identical successor states.
pub proof fn lemma_determinism(
    alg: HashAlg,
    e1: Seq<u8>,
    n1: Seq<u8>,
    p1: Seq<u8>,
    e2: Seq<u8>,
    n2: Seq<u8>,
    p2: Seq<u8>,
    s1: HmacState,
    s2: HmacState,
    req: nat,
    add: Option<Seq<u8>>,
    entropy: Seq<u8>,
)
    requires
        e1 == e2,
        n1 == n2,
        p1 == p2,
        s1.k == s2.k,
        s1.v == s2.v,
    ensures
        spec_new_state(alg, e1, n1, p1) == spec_new_state(alg, e2, n2, p2),
        spec_generate(alg, s1.k, s1.v, req, add) == spec_generate(alg, s2.k, s2.v, req, add),
        spec_reseed(alg, s1.k, s1.v, entropy, add) == spec_reseed(alg, s2.k, s2.v, entropy, add),
{
}

} // verus!
