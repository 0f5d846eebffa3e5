//! The CTR-DRBG mechanism of NIST SP 800-90A §10.2.1, without a derivation
//! function, over AES-128, AES-192 or AES-256. The security strength equals
//! the key length, so an instance supports 128, 192 or 256 bits.
//!
//! The secret state is the cipher key `Key` and the 16-byte counter block
//! `V`; only the rightmost `CTR_LEN = 4` bytes of `V` form the counter.

use crate::mechs::primitives::{aes_encrypt, key_len, key_len_exec, spec_aes_enc, AesAlg};
use crate::mechs::utility::{
    be_add, lemma_be_add_of, modular_add, opt_bytes, repeat_byte, xor_seq, xor_vecs, zero_fill,
};
use vstd::prelude::*;

verus! {

/// The number of generate calls a seed may serve before a reseed is forced.
pub const SEED_LIFE: usize = 1000;

/// The length in bytes of the counter field at the right end of `V`.
pub const CTR_LEN: usize = 4;

/// `seedlen` in bytes: one block plus one key.
pub open spec fn seed_len(alg: AesAlg) -> nat {
    16 + key_len(alg)
}

/// `seedlen` in bytes, as a runtime value.
pub fn seed_len_exec(alg: AesAlg) -> (r: usize)
    ensures
        r as nat == seed_len(alg),
{
    16 + key_len_exec(alg)
}

/// Mathematical model of a CTR-DRBG instance.
pub struct CtrState {
    pub k: Seq<u8>,
    pub v: Seq<u8>,
    pub count: nat,
    pub zeroized: bool,
    pub alg: AesAlg,
}

impl CtrState {
    /// The instance is in exactly one of two phases: active, with a
    /// `keylen`-byte key, a 16-byte `V` and `1 <= count <= SEED_LIFE`, or
    /// destroyed, with every secret byte zero and `count == 0`.
    pub open spec fn inv(self) -> bool {
        &&& self.k.len() == key_len(self.alg)
        &&& self.v.len() == 16
        &&& self.count <= SEED_LIFE
        &&& (self.zeroized ==> self.k == repeat_byte(0, key_len(self.alg)) && self.v == repeat_byte(
            0,
            16,
        ) && self.count == 0)
        &&& (!self.zeroized ==> 1 <= self.count)
    }
}

/// `s` truncated or right-zero-padded to exactly `len` bytes.
pub open spec fn pad_to(s: Seq<u8>, len: nat) -> Seq<u8> {
    if s.len() >= len {
        s.take(len as int)
    } else {
        s + repeat_byte(0, (len - s.len()) as nat)
    }
}

/// `V` with its rightmost `CTR_LEN` bytes incremented by one modulo
/// `2^(8*CTR_LEN)`; the leftmost bytes are unchanged.
pub open spec fn ctr_inc(v: Seq<u8>) -> Seq<u8> {
    v.take(12) + be_add(v.skip(12), 1)
}

/// The first `req` bytes of the CTR output stream from `(key, v)`: each
/// round increments the counter and emits the encryption of `V`.
pub open spec fn spec_ctr_stream(alg: AesAlg, key: Seq<u8>, v: Seq<u8>, req: nat) -> Seq<u8>
    decreases req,
{
    if req == 0 {
        Seq::empty()
    } else {
        let v1 = ctr_inc(v);
        let b = spec_aes_enc(alg, key, v1);
        if req <= 16 {
            b.take(req as int)
        } else {
            b + spec_ctr_stream(alg, key, v1, (req - 16) as nat)
        }
    }
}

/// The counter block after emitting `req` bytes of the stream.
pub open spec fn spec_ctr_v(v: Seq<u8>, req: nat) -> Seq<u8>
    decreases req,
{
    if req == 0 {
        v
    } else {
        let v1 = ctr_inc(v);
        if req <= 16 {
            v1
        } else {
            spec_ctr_v(v1, (req - 16) as nat)
        }
    }
}

/// The update transition (SP 800-90A §10.2.1.2): `seedlen` stream bytes are
/// XORed with the provided data; the result is split into the new key and
/// the new `V`.
pub open spec fn spec_ctr_update(alg: AesAlg, key: Seq<u8>, v: Seq<u8>, provided: Seq<u8>) -> (
    Seq<u8>,
    Seq<u8>,
) {
    let temp = xor_seq(spec_ctr_stream(alg, key, v, seed_len(alg)), provided);
    (temp.take(key_len(alg) as int), temp.skip(key_len(alg) as int))
}

/// The state derived by instantiation (SP 800-90A §10.2.1.3.2): update the
/// all-zero state with `entropy XOR pad(pers)`.
pub open spec fn spec_new_state(alg: AesAlg, entropy: Seq<u8>, pers: Seq<u8>) -> (Seq<u8>, Seq<u8>) {
    spec_ctr_update(
        alg,
        repeat_byte(0, key_len(alg)),
        repeat_byte(0, 16),
        xor_seq(entropy.take(seed_len(alg) as int), pad_to(pers, seed_len(alg))),
    )
}

/// The generate transition (SP 800-90A §10.2.1.5.1): the output bytes and
/// the new `(Key, V)`.
pub open spec fn spec_generate(
    alg: AesAlg,
    k: Seq<u8>,
    v: Seq<u8>,
    req: nat,
    add: Option<Seq<u8>>,
) -> (Seq<u8>, Seq<u8>, Seq<u8>) {
    let provided = match add {
        Some(a) => pad_to(a, seed_len(alg)),
        None => repeat_byte(0, seed_len(alg)),
    };
    let kv1 = match add {
        Some(a) => spec_ctr_update(alg, k, v, provided),
        None => (k, v),
    };
    let out = spec_ctr_stream(alg, kv1.0, kv1.1, req);
    let vg = spec_ctr_v(kv1.1, req);
    let kv2 = spec_ctr_update(alg, kv1.0, vg, provided);
    (out, kv2.0, kv2.1)
}

/// The reseed transition (SP 800-90A §10.2.1.4.1): update with
/// `entropy XOR pad(add)`.
pub open spec fn spec_reseed(
    alg: AesAlg,
    k: Seq<u8>,
    v: Seq<u8>,
    entropy: Seq<u8>,
    add: Option<Seq<u8>>,
) -> (Seq<u8>, Seq<u8>) {
    let provided = match add {
        Some(a) => pad_to(a, seed_len(alg)),
        None => repeat_byte(0, seed_len(alg)),
    };
    spec_ctr_update(alg, k, v, xor_seq(entropy.take(seed_len(alg) as int), provided))
}

/// Increments the rightmost `CTR_LEN` bytes of the 16-byte block `v`.
fn ctr_increment(v: &mut Vec<u8>)
    requires
        old(v)@.len() == 16,
    ensures
        final(v)@ == ctr_inc(old(v)@),
        final(v)@.len() == 16,
{
    let ghost v0 = v@;
    let mut right: Vec<u8> = Vec::new();
    let mut i: usize = 12;
    while i < 16
        invariant
            12 <= i <= 16,
            v@ == v0,
            v@.len() == 16,
            right@ =~= v0.subrange(12, i as int),
        decreases 16 - i,
    {
        let b = v[i];
        right.push(b);
        proof {
            assert(right@ =~= v0.subrange(12, i + 1));
        }
        i += 1;
    }
    proof {
        assert(right@ =~= v0.skip(12));
    }
    modular_add(&mut right, 1);
    proof {
        lemma_be_add_of(v0.skip(12), right@, 1);
    }
    let b0 = right[0];
    let b1 = right[1];
    let b2 = right[2];
    let b3 = right[3];
    v[12] = b0;
    v[13] = b1;
    v[14] = b2;
    v[15] = b3;
    proof {
        assert(v@ =~= v0.take(12) + right@);
    }
}

/// A CTR-DRBG (no derivation function) instance.
pub struct CtrDrbgMech {
    k: Vec<u8>,
    v: Vec<u8>,
    count: usize,
    zeroized: bool,
    alg: AesAlg,
}

impl View for CtrDrbgMech {
    type V = CtrState;

    closed spec fn view(&self) -> CtrState {
        CtrState {
            k: self.k@,
            v: self.v@,
            count: self.count as nat,
            zeroized: self.zeroized,
            alg: self.alg,
        }
    }
}

impl CtrDrbgMech {
    /// Truncates or right-zero-pads `vec` to exactly `len` bytes.
    fn to_be_len(vec: &[u8], len: usize) -> (r: Vec<u8>)
        ensures
            r@ == pad_to(vec@, len as nat),
            r@.len() == len,
    {
        let mut r: Vec<u8> = Vec::new();
        let n = vec.len();
        let mut i: usize = 0;
        while i < len
            invariant
                i <= len,
                n == vec@.len(),
                r@.len() == i,
                forall|t: int|
                    0 <= t < i ==> r@[t] == (if t < n {
                        vec@[t]
                    } else {
                        0u8
                    }),
            decreases len - i,
        {
            if i < n {
                let b = vec[i];
                r.push(b);
            } else {
                r.push(0x00);
            }
            i += 1;
        }
        proof {
            assert(r@ =~= pad_to(vec@, len as nat));
        }
        r
    }

    /// Updates the internal state with exactly `seedlen` bytes of provided
    /// data (SP 800-90A §10.2.1.2).
    fn update(&mut self, provided_data: &Vec<u8>)
        requires
            old(self).k@.len() == key_len(old(self).alg),
            old(self).v@.len() == 16,
            provided_data@.len() == seed_len(old(self).alg),
        ensures
            (final(self).k@, final(self).v@) == spec_ctr_update(
                old(self).alg,
                old(self).k@,
                old(self).v@,
                provided_data@,
            ),
            final(self).k@.len() == key_len(old(self).alg),
            final(self).v@.len() == 16,
            final(self).count == old(self).count,
            final(self).zeroized == old(self).zeroized,
            final(self).alg == old(self).alg,
    {
        let ghost alg = self.alg;
        let ghost k0 = self.k@;
        let ghost v0 = self.v@;
        let sl = seed_len_exec(self.alg);

        // Fill a temporary vector with stream blocks (steps 1, 2).
        let mut temp: Vec<u8> = Vec::new();
        let mut i: usize = 0;
        while i < sl
            invariant
                alg == self.alg,
                sl as nat == seed_len(alg),
                18 <= sl <= 48,
                i <= sl + 16,
                self.k@ == k0,
                self.k@.len() == key_len(alg),
                self.v@.len() == 16,
                self.count == old(self).count,
                self.zeroized == old(self).zeroized,
                temp@.len() == (if i <= sl {
                    i as int
                } else {
                    sl as int
                }),
                spec_ctr_stream(alg, k0, v0, sl as nat) == temp@ + spec_ctr_stream(
                    alg,
                    k0,
                    self.v@,
                    (sl - temp@.len()) as nat,
                ),
                spec_ctr_v(v0, sl as nat) == spec_ctr_v(self.v@, (sl - temp@.len()) as nat),
            decreases sl + 16 - i,
        {
            let ghost rem0 = (sl - i) as nat;
            // Increment the counter field of V (step 2.1).
            ctr_increment(&mut self.v);
            // Encrypt V (step 2.2) and append the block (step 2.3).
            let block = aes_encrypt(self.alg, &self.k, &self.v);
            let ghost t0 = temp@;
            let mut j: usize = 0;
            while j < 16 && i + j < sl
                invariant
                    j <= 16,
                    block@.len() == 16,
                    i + j <= sl,
                    i < sl,
                    sl <= 48,
                    temp@ == t0 + block@.take(j as int),
                decreases 16 - j,
            {
                let b = block[j];
                temp.push(b);
                proof {
                    assert(temp@ =~= t0 + block@.take(j + 1));
                }
                j += 1;
            }
            proof {
                if rem0 <= 16 {
                    assert(j == rem0);
                    assert(spec_ctr_stream(alg, k0, self.v@, 0) =~= Seq::<u8>::empty());
                    assert(temp@ + spec_ctr_stream(alg, k0, self.v@, 0) =~= temp@);
                } else {
                    assert(j == 16);
                    assert(block@.take(16) =~= block@);
                }
            }
            i += 16;
        }
        proof {
            assert(temp@ + spec_ctr_stream(alg, k0, self.v@, 0) =~= temp@);
            assert(temp@ == spec_ctr_stream(alg, k0, v0, sl as nat));
        }

        // temp XOR provided_data (step 4).
        xor_vecs(&mut temp, provided_data);

        // New key and new V (steps 5, 6).
        let kl = key_len_exec(self.alg);
        let nk = vstd::slice::slice_to_vec(vstd::slice::slice_subrange(temp.as_slice(), 0, kl));
        let nv = vstd::slice::slice_to_vec(vstd::slice::slice_subrange(temp.as_slice(), kl, sl));
        proof {
            assert(nk@ =~= xor_seq(spec_ctr_stream(alg, k0, v0, sl as nat), provided_data@).take(
                kl as int,
            ));
            assert(nv@ =~= xor_seq(spec_ctr_stream(alg, k0, v0, sl as nat), provided_data@).skip(
                kl as int,
            ));
        }
        self.k = nk;
        self.v = nv;
    }

    /// Instantiates the mechanism (SP 800-90A §10.2.1.3.2). The nonce is
    /// unused without a derivation function: the entropy must cover the full
    /// `seedlen` bytes. A strength beyond the key length is rejected; on
    /// success the strength is exactly the key length in bits.
    pub fn new(alg: AesAlg, entropy: &[u8], _nonce: &[u8], pers: &[u8], req_str: &mut usize) -> (r:
        Option<CtrDrbgMech>)
        ensures
            *final(req_str) == if *old(req_str) <= 8 * key_len(alg) {
                8 * key_len(alg) as int
            } else {
                *old(req_str) as int
            },
            (r is Some) <==> (*old(req_str) <= 8 * key_len(alg) && entropy@.len() >= seed_len(alg)),
            r matches Some(m) ==> {
                &&& m@.inv()
                &&& m@.alg == alg
                &&& m@.zeroized == false
                &&& m@.count == 1
                &&& (m@.k, m@.v) == spec_new_state(alg, entropy@, pers@)
            },
    {
        // A strength beyond what the cipher supports is rejected; on success
        // the instance carries exactly the cipher's strength.
        let kl = key_len_exec(alg);
        if *req_str > 8 * kl {
            return None;
        }
        *req_str = 8 * kl;

        let sl = seed_len_exec(alg);

        // The entropy must cover seedlen bytes.
        if entropy.len() < sl {
            return None;
        }
        let new_entropy = Self::to_be_len(entropy, sl);
        proof {
            assert(pad_to(entropy@, sl as nat) =~= entropy@.take(sl as int));
        }

        // pers is truncated or zero-padded to seedlen bytes (steps 1, 2).
        let new_pers = Self::to_be_len(pers, sl);

        // The all-zero initial state (steps 4, 5, 7).
        let k = crate::mechs::utility::repeat_bytes(0x00, kl);
        let v = crate::mechs::utility::repeat_bytes(0x00, 16);
        let mut this = CtrDrbgMech { k, v, count: 1, zeroized: false, alg };

        // Update with entropy XOR pers (steps 3, 6).
        let mut seed_material = new_entropy;
        xor_vecs(&mut seed_material, &new_pers);
        this.update(&seed_material);

        // Return the instance (step 8).
        Some(this)
    }

    /// Generates `req_bytes` bytes (SP 800-90A §10.2.1.5.1). The output
    /// vector is cleared first; it holds exactly `req_bytes` bytes on
    /// success and stays empty on failure. Returns 1 on a destroyed
    /// instance, 2 once the seed life is exhausted, 0 otherwise.
    pub fn generate(&mut self, result: &mut Vec<u8>, req_bytes: usize, add: Option<&[u8]>) -> (r:
        usize)
        requires
            old(self)@.inv(),
            req_bytes <= usize::MAX - 64,
        ensures
            final(self)@.inv(),
            final(self)@.alg == old(self)@.alg,
            (r == 1) <==> old(self)@.zeroized,
            (r == 2) <==> (!old(self)@.zeroized && old(self)@.count >= SEED_LIFE),
            (r == 0) <==> (!old(self)@.zeroized && old(self)@.count < SEED_LIFE),
            r != 0 ==> *final(self) == *old(self) && final(result)@ == Seq::<u8>::empty(),
            r == 0 ==> ({
                let g = spec_generate(
                    old(self)@.alg,
                    old(self)@.k,
                    old(self)@.v,
                    req_bytes as nat,
                    opt_bytes(add),
                );
                &&& final(result)@ == g.0
                &&& final(result)@.len() == req_bytes
                &&& final(self)@.k == g.1
                &&& final(self)@.v == g.2
                &&& final(self)@.count == old(self)@.count + 1
                &&& final(self)@.zeroized == false
            }),
    {
        // The output vector is cleared before anything else.
        if !result.is_empty() {
            result.clear();
        }

        // No generation on a destroyed instance.
        if self.zeroized {
            return 1;
        }

        // The seed life is exhausted: a reseed must intervene (step 1).
        if self.count >= SEED_LIFE {
            return 2;
        }

        let ghost alg = self.alg;
        let ghost c0 = self.count as nat;
        let sl = seed_len_exec(self.alg);

        // The additional input is padded to seedlen bytes and mixed in; with
        // none, an all-zero string takes its place in the final update
        // (step 2).
        let new_add_in: Vec<u8> = match add {
            None => crate::mechs::utility::repeat_bytes(0x00, sl),
            Some(a) => {
                let padded = Self::to_be_len(a, sl);
                self.update(&padded);
                padded
            },
        };
        let ghost k1 = self.k@;
        let ghost v1 = self.v@;

        // Emit encrypted counter blocks until enough bytes are produced
        // (steps 3, 4).
        let mut i: usize = 0;
        while i < req_bytes
            invariant
                alg == self.alg,
                req_bytes <= usize::MAX - 64,
                i <= req_bytes + 16,
                self.count == c0,
                self.zeroized == false,
                self.k@ == k1,
                self.k@.len() == key_len(alg),
                self.v@.len() == 16,
                result@.len() == (if i <= req_bytes {
                    i as int
                } else {
                    req_bytes as int
                }),
                spec_ctr_stream(alg, k1, v1, req_bytes as nat) == result@ + spec_ctr_stream(
                    alg,
                    k1,
                    self.v@,
                    (req_bytes - result@.len()) as nat,
                ),
                spec_ctr_v(v1, req_bytes as nat) == spec_ctr_v(
                    self.v@,
                    (req_bytes - result@.len()) as nat,
                ),
            decreases req_bytes + 16 - i,
        {
            let ghost rem0 = (req_bytes - i) as nat;
            // Increment the counter field of V (step 4.1).
            ctr_increment(&mut self.v);
            // Encrypt V (step 4.2) and append the block (step 4.3).
            let block = aes_encrypt(self.alg, &self.k, &self.v);
            let ghost res0 = result@;
            let mut j: usize = 0;
            while j < 16 && i + j < req_bytes
                invariant
                    j <= 16,
                    block@.len() == 16,
                    i + j <= req_bytes,
                    i < req_bytes,
                    req_bytes <= usize::MAX - 64,
                    result@ == res0 + block@.take(j as int),
                decreases 16 - j,
            {
                let b = block[j];
                result.push(b);
                proof {
                    assert(result@ =~= res0 + block@.take(j + 1));
                }
                j += 1;
            }
            proof {
                if rem0 <= 16 {
                    assert(j == rem0);
                    assert(spec_ctr_stream(alg, k1, self.v@, 0) =~= Seq::<u8>::empty());
                    assert(result@ + spec_ctr_stream(alg, k1, self.v@, 0) =~= result@);
                } else {
                    assert(j == 16);
                    assert(block@.take(16) =~= block@);
                }
            }
            i += 16;
        }
        proof {
            assert(result@ + spec_ctr_stream(alg, k1, self.v@, 0) =~= result@);
            assert(result@ == spec_ctr_stream(alg, k1, v1, req_bytes as nat));
            assert(self.v@ == spec_ctr_v(v1, req_bytes as nat));
        }

        // Update the internal state (step 6).
        self.update(&new_add_in);

        // Increment the reseed counter (step 7).
        self.count = self.count + 1;
        0
    }

    /// Reseeds the instance (SP 800-90A §10.2.1.4.1). Returns 1 on a
    /// destroyed instance, 2 when the entropy is under `seedlen` bytes, 0 on
    /// success, with the reseed counter back at 1.
    pub fn reseed(&mut self, entropy: &[u8], add: Option<&[u8]>) -> (r: usize)
        requires
            old(self)@.inv(),
        ensures
            final(self)@.inv(),
            final(self)@.alg == old(self)@.alg,
            (r == 1) <==> old(self)@.zeroized,
            (r == 2) <==> (!old(self)@.zeroized && entropy@.len() < seed_len(old(self)@.alg)),
            (r == 0) <==> (!old(self)@.zeroized && entropy@.len() >= seed_len(old(self)@.alg)),
            r != 0 ==> *final(self) == *old(self),
            r == 0 ==> ({
                let kv = spec_reseed(
                    old(self)@.alg,
                    old(self)@.k,
                    old(self)@.v,
                    entropy@,
                    opt_bytes(add),
                );
                &&& final(self)@.k == kv.0
                &&& final(self)@.v == kv.1
                &&& final(self)@.count == 1
                &&& final(self)@.zeroized == false
            }),
    {
        // Nothing to be done on a destroyed instance.
        if self.zeroized {
            return 1;
        }

        let sl = seed_len_exec(self.alg);

        // The additional input is padded to seedlen bytes; with none, an
        // all-zero string takes its place (steps 1, 2).
        let new_add_in: Vec<u8> = match add {
            None => crate::mechs::utility::repeat_bytes(0x00, sl),
            Some(a) => Self::to_be_len(a, sl),
        };

        // The entropy must cover seedlen bytes.
        if entropy.len() < sl {
            return 2;
        }
        let new_entropy = Self::to_be_len(entropy, sl);
        proof {
            assert(pad_to(entropy@, sl as nat) =~= entropy@.take(sl as int));
        }

        // Update with entropy XOR add (steps 3, 4).
        let mut seed_material = new_entropy;
        xor_vecs(&mut seed_material, &new_add_in);
        self.update(&seed_material);

        // Reset the reseed counter (step 5).
        self.count = 1;
        0
    }

    /// Destroys the instance: every secret byte is overwritten with zero.
    /// Returns 1 if the instance was already destroyed.
    pub fn zeroize(&mut self) -> (r: usize)
        requires
            old(self)@.inv(),
        ensures
            final(self)@.inv(),
            final(self)@.alg == old(self)@.alg,
            (r == 1) <==> old(self)@.zeroized,
            old(self)@.zeroized ==> *final(self) == *old(self),
            !old(self)@.zeroized ==> r == 0,
            final(self)@.zeroized,
            final(self)@.k == repeat_byte(0, key_len(old(self)@.alg)),
            final(self)@.v == repeat_byte(0, 16),
            final(self)@.count == 0,
    {
        if self.zeroized {
            return 1;
        }
        zero_fill(&mut self.k);
        zero_fill(&mut self.v);
        self.count = 0;
        self.zeroized = true;
        0
    }

    /// `seedlen` in bytes for this instance's block cipher.
    pub fn seedlen(&self) -> (r: usize)
        ensures
            r as nat == seed_len(self@.alg),
    {
        16 + key_len_exec(self.alg)
    }

    /// The reseed counter.
    pub fn count(&self) -> (r: usize)
        ensures
            r as nat == self@.count,
    {
        self.count
    }

    /// True once the seed life is exhausted: the next generate needs a
    /// reseed first.
    pub fn reseed_needed(&self) -> (r: bool)
        ensures
            r == (self@.count >= SEED_LIFE),
    {
        self.count >= SEED_LIFE
    }

    /// Whether the instance has been destroyed.
    pub fn _is_zeroized(&self) -> (r: bool)
        ensures
            r == self@.zeroized,
    {
        self.zeroized
    }

    /// Whether both secrets hold only zero bytes.
    pub fn secrets_wiped(&self) -> (r: bool)
        ensures
            r == (self@.k == repeat_byte(0, self@.k.len()) && self@.v == repeat_byte(
                0,
                self@.v.len(),
            )),
    {
        let mut i: usize = 0;
        let n = self.k.len();
        while i < n
            invariant
                i <= n,
                n == self.k@.len(),
                forall|t: int| 0 <= t < i ==> self.k@[t] == 0u8,
            decreases n - i,
        {
            if self.k[i] != 0 {
                proof {
                    assert(self.k@ != repeat_byte(0, self.k@.len()));
                }
                return false;
            }
            i += 1;
        }
        let mut j: usize = 0;
        let m = self.v.len();
        while j < m
            invariant
                j <= m,
                m == self.v@.len(),
                forall|t: int| 0 <= t < j ==> self.v@[t] == 0u8,
            decreases m - j,
        {
            if self.v[j] != 0 {
                proof {
                    assert(self.v@ != repeat_byte(0, self.v@.len()));
                }
                return false;
            }
            j += 1;
        }
        proof {
            assert(self.k@ =~= repeat_byte(0, self.k@.len()));
            assert(self.v@ =~= repeat_byte(0, self.v@.len()));
        }
        true
    }

    /// The mechanism's name.
    pub fn drbg_name() -> (r: String)
        ensures
            r@ == "CTR-DRBG"@,
    {
        "CTR-DRBG".to_string()
    }

    /// The number of generate calls a seed may serve.
    pub fn seed_life() -> (r: usize)
        ensures
            r == SEED_LIFE,
    {
        SEED_LIFE
    }
}

/// Determinism law: two instances instantiated with identical entropy and
/// personalization strings hold identical state; and two instances in
/// identical states, driven by the same generate or reseed arguments,
/// produce identical outputs and identical successor states.
pub proof fn lemma_determinism(
    alg: AesAlg,
    e1: Seq<u8>,
    p1: Seq<u8>,
    e2: Seq<u8>,
    p2: Seq<u8>,
    s1: CtrState,
    s2: CtrState,
    req: nat,
    add: Option<Seq<u8>>,
    entropy: Seq<u8>,
)
    requires
        e1 == e2,
        p1 == p2,
        s1.k == s2.k,
        s1.v == s2.v,
    ensures
        spec_new_state(alg, e1, p1) == spec_new_state(alg, e2, p2),
        spec_generate(alg, s1.k, s1.v, req, add) == spec_generate(alg, s2.k, s2.v, req, add),
        spec_reseed(alg, s1.k, s1.v, entropy, add) == spec_reseed(alg, s2.k, s2.v, entropy, add),
{
}

} // verus!
