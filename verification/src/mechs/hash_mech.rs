//! The Hash-DRBG mechanism of NIST SP 800-90A §10.1.1, over SHA-256
//! (seedlen 440 bits) or SHA-512 (seedlen 888 bits). Both hash functions
//! support a security strength of 256 bits, so every instance carries that
//! strength.
//!
//! The secret state is the pair `(V, C)` of `seedlen/8`-byte strings. The
//! derivation function `Hash_df` encodes the requested bit count as a 32-bit
//! big-endian integer, and the generate path adds the reseed counter into
//! `V`, both as SP 800-90A prescribes.

use crate::mechs::primitives::{hash_digest, hash_len, hash_len_exec, spec_hash, HashAlg};
use crate::mechs::utility::{
    be_add, be_bytes_4, be_nat, lemma_be_add_of, nat_to_be, opt_bytes, repeat_byte, zero_fill,
};
use vstd::arithmetic::div_mod::lemma_add_mod_noop_right;
use vstd::prelude::*;

verus! {

/// The number of generate calls a seed may serve before a reseed is forced.
pub const SEED_LIFE: usize = 1000;

/// Working-state length in bytes: `seedlen / 8`.
pub open spec fn seed_len(alg: HashAlg) -> nat {
    match alg {
        HashAlg::Sha256 => 55,
        HashAlg::Sha512 => 111,
    }
}

/// Working-state length in bytes, as a runtime value.
pub fn seed_len_exec(alg: HashAlg) -> (r: usize)
    ensures
        r as nat == seed_len(alg),
{
    match alg {
        HashAlg::Sha256 => 55,
        HashAlg::Sha512 => 111,
    }
}

/// Mathematical model of a Hash-DRBG instance.
pub struct HashState {
    pub v: Seq<u8>,
    pub c: Seq<u8>,
    pub count: nat,
    pub zeroized: bool,
    pub sec_str: nat,
    pub alg: HashAlg,
}

impl HashState {
    /// The instance is in exactly one of two phases: active, with both
    /// secrets of `seedlen/8` bytes and `1 <= count <= SEED_LIFE`, or
    /// destroyed, with every secret byte zero and `count == 0`.
    pub open spec fn inv(self) -> bool {
        &&& self.v.len() == seed_len(self.alg)
        &&& self.c.len() == seed_len(self.alg)
        &&& self.sec_str == 256
        &&& self.count <= SEED_LIFE
        &&& (self.zeroized ==> self.v == repeat_byte(0, seed_len(self.alg)) && self.c
            == repeat_byte(0, seed_len(self.alg)) && self.count == 0)
        &&& (!self.zeroized ==> 1 <= self.count)
    }
}

/// The output of the `Hash_df` block loop from a given counter byte on:
/// block `i` is `Hash(counter + i || lenfield || input)`.
pub open spec fn spec_df_out(
    alg: HashAlg,
    input: Seq<u8>,
    lenfield: Seq<u8>,
    counter: u8,
    req: nat,
) -> Seq<u8>
    decreases req,
{
    if req == 0 {
        Seq::empty()
    } else {
        let h = spec_hash(alg, seq![counter] + lenfield + input);
        if req <= hash_len(alg) {
            h.take(req as int)
        } else {
            h + spec_df_out(alg, input, lenfield, (counter + 1) as u8, (req - hash_len(alg)) as nat)
        }
    }
}

/// `Hash_df(input, nbytes)` (SP 800-90A §10.3.1): the length field is the
/// requested bit count, `8 * nbytes`, as a 32-bit big-endian integer.
pub open spec fn spec_hash_df(alg: HashAlg, input: Seq<u8>, nbytes: nat) -> Seq<u8> {
    spec_df_out(alg, input, nat_to_be(4, 8 * nbytes as int), 1u8, nbytes)
}

/// The `Hashgen` output stream (SP 800-90A §10.1.1.4): hash `data`, emit the
/// digest, increment `data` by one modulo `2^seedlen`, and repeat.
pub open spec fn spec_hashgen_out(alg: HashAlg, data: Seq<u8>, req: nat) -> Seq<u8>
    decreases req,
{
    if req == 0 {
        Seq::empty()
    } else {
        let w = spec_hash(alg, data);
        if req <= hash_len(alg) {
            w.take(req as int)
        } else {
            w + spec_hashgen_out(alg, be_add(data, 1), (req - hash_len(alg)) as nat)
        }
    }
}

/// The state derived by instantiation (SP 800-90A §10.1.1.2):
/// `V = Hash_df(entropy || nonce || pers)`, `C = Hash_df(0x00 || V)`.
pub open spec fn spec_new_state(alg: HashAlg, entropy: Seq<u8>, nonce: Seq<u8>, pers: Seq<u8>) -> (
    Seq<u8>,
    Seq<u8>,
) {
    let v = spec_hash_df(alg, entropy + nonce + pers, seed_len(alg));
    let c = spec_hash_df(alg, seq![0u8] + v, seed_len(alg));
    (v, c)
}

/// The generate transition (SP 800-90A §10.1.1.4): the output bytes and the
/// new `V`; `C` is untouched. `count` is the reseed counter before the call.
pub open spec fn spec_generate(
    alg: HashAlg,
    v: Seq<u8>,
    c: Seq<u8>,
    count: nat,
    req: nat,
    add: Option<Seq<u8>>,
) -> (Seq<u8>, Seq<u8>) {
    let v1 = match add {
        Some(a) => be_add(v, be_nat(spec_hash(alg, seq![2u8] + v + a))),
        None => v,
    };
    let out = spec_hashgen_out(alg, v1, req);
    let h = spec_hash(alg, seq![3u8] + v1);
    let v2 = be_add(v1, be_nat(h) + be_nat(c) + count);
    (out, v2)
}

/// The reseed transition (SP 800-90A §10.1.1.3):
/// `V = Hash_df(0x01 || V || entropy || add)`, `C = Hash_df(0x00 || V)`.
pub open spec fn spec_reseed(
    alg: HashAlg,
    v: Seq<u8>,
    entropy: Seq<u8>,
    add: Option<Seq<u8>>,
) -> (Seq<u8>, Seq<u8>) {
    let material = seq![1u8] + v + entropy + match add {
        Some(a) => a,
        None => Seq::empty(),
    };
    let v2 = spec_hash_df(alg, material, seed_len(alg));
    let c2 = spec_hash_df(alg, seq![0u8] + v2, seed_len(alg));
    (v2, c2)
}

/// A Hash-DRBG instance.
pub struct HashDrbgMech {
    v: Vec<u8>,
    c: Vec<u8>,
    count: usize,
    zeroized: bool,
    sec_str: usize,
    alg: HashAlg,
}

impl View for HashDrbgMech {
    type V = HashState;

    closed spec fn view(&self) -> HashState {
        HashState {
            v: self.v@,
            c: self.c@,
            count: self.count as nat,
            zeroized: self.zeroized,
            sec_str: self.sec_str as nat,
            alg: self.alg,
        }
    }
}

/// `Hash_df` (SP 800-90A §10.3.1): derives `num_bytes` bytes from `input`
/// with the hash function `alg`.
fn hash_df(alg: HashAlg, result: &mut Vec<u8>, input: Vec<u8>, num_bytes: usize)
    requires
        num_bytes <= 4096,
    ensures
        final(result)@ == spec_hash_df(alg, input@, num_bytes as nat),
        final(result)@.len() == num_bytes,
{
    // An empty output vector is required for the generated bytes.
    if !result.is_empty() {
        result.clear();
    }

    // The counter byte and the 32-bit big-endian bit count (steps 1-3).
    let mut counter: u8 = 0x01;
    let lenfield = be_bytes_4(8 * num_bytes);
    let ghost lf = lenfield@;

    let hl = hash_len_exec(alg);
    let mut i: usize = 0;
    while i < num_bytes
        invariant
            hl as nat == hash_len(alg),
            1 <= hl <= 64,
            num_bytes <= 4096,
            i <= num_bytes + 64,
            lf == lenfield@,
            lf == nat_to_be(4, 8 * num_bytes as int),
            result@.len() == (if i <= num_bytes {
                i as int
            } else {
                num_bytes as int
            }),
            counter as int * hl as int <= i + hl,
            1 <= counter,
            spec_hash_df(alg, input@, num_bytes as nat) == result@ + spec_df_out(
                alg,
                input@,
                lf,
                counter,
                (num_bytes - result@.len()) as nat,
            ),
        decreases num_bytes + 64 - i,
    {
        let ghost rem0 = (num_bytes - i) as nat;
        // Hash counter || lenfield || input and append the digest (step 4.1).
        let mut msg: Vec<u8> = Vec::new();
        msg.push(counter);
        msg.extend_from_slice(lenfield.as_slice());
        msg.extend_from_slice(input.as_slice());
        proof {
            assert(msg@ =~= seq![counter] + lf + input@);
        }
        let h = hash_digest(alg, &msg);
        let ghost res0 = result@;
        let mut j: usize = 0;
        while j < hl && i + j < num_bytes
            invariant
                j <= hl,
                hl as nat == h@.len(),
                i + j <= num_bytes,
                i < num_bytes,
                num_bytes <= 4096,
                result@ == res0 + h@.take(j as int),
            decreases hl - j,
        {
            let b = h[j];
            result.push(b);
            proof {
                assert(result@ =~= res0 + h@.take(j + 1));
            }
            j += 1;
        }
        proof {
            if rem0 <= hl as nat {
                assert(j == rem0);
                assert(spec_df_out(alg, input@, lf, counter, 0) =~= Seq::<u8>::empty());
                assert(result@ + spec_df_out(alg, input@, lf, counter, 0) =~= result@);
            } else {
                assert(j == hl);
                assert(h@.take(hl as int) =~= h@);
            }
        }

        i += hl;
        // Update the counter (step 4.2).
        counter += 1;
    }
    proof {
        assert(result@ + spec_df_out(alg, input@, lf, counter, 0) =~= result@);
    }
}

impl HashDrbgMech {
    /// `Hashgen` (SP 800-90A §10.1.1.4): emits `num_bytes` bytes by hashing
    /// and incrementing a copy of `V`; the state itself is untouched.
    fn hashgen(&self, result: &mut Vec<u8>, num_bytes: usize)
        requires
            self.v@.len() >= 1,
            num_bytes <= usize::MAX - 64,
        ensures
            final(result)@ == spec_hashgen_out(self.alg, self.v@, num_bytes as nat),
            final(result)@.len() == num_bytes,
    {
        // An empty output vector is required for the generated bytes.
        if !result.is_empty() {
            result.clear();
        }

        let ghost alg = self.alg;
        // data starts as a copy of V (steps 1-3).
        let mut data: Vec<u8> = Vec::new();
        data.extend_from_slice(self.v.as_slice());
        proof {
            assert(data@ =~= self.v@);
        }

        let hl = hash_len_exec(self.alg);
        let mut i: usize = 0;
        while i < num_bytes
            invariant
                alg == self.alg,
                hl as nat == hash_len(alg),
                1 <= hl <= 64,
                num_bytes <= usize::MAX - 64,
                i <= num_bytes + 64,
                data@.len() == self.v@.len(),
                data@.len() >= 1,
                result@.len() == (if i <= num_bytes {
                    i as int
                } else {
                    num_bytes as int
                }),
                spec_hashgen_out(alg, self.v@, num_bytes as nat) == result@ + spec_hashgen_out(
                    alg,
                    data@,
                    (num_bytes - result@.len()) as nat,
                ),
            decreases num_bytes + 64 - i,
        {
            let ghost rem0 = (num_bytes - i) as nat;
            let ghost data0 = data@;
            // Hash the data (step 4.1) and append the digest (step 4.2).
            let w = hash_digest(self.alg, &data);
            let ghost res0 = result@;
            let mut j: usize = 0;
            while j < hl && i + j < num_bytes
                invariant
                    j <= hl,
                    hl as nat == w@.len(),
                    i + j <= num_bytes,
                    i < num_bytes,
                    num_bytes <= usize::MAX - 64,
                    result@ == res0 + w@.take(j as int),
                decreases hl - j,
            {
                let b = w[j];
                result.push(b);
                proof {
                    assert(result@ =~= res0 + w@.take(j + 1));
                }
                j += 1;
            }

            // Increment the data for the next block (step 4.3).
            crate::mechs::utility::modular_add(&mut data, 1);
            proof {
                lemma_be_add_of(data0, data@, 1);
                if rem0 <= hl as nat {
                    assert(j == rem0);
                    assert(spec_hashgen_out(alg, data@, 0) =~= Seq::<u8>::empty());
                    assert(result@ + spec_hashgen_out(alg, data@, 0) =~= result@);
                } else {
                    assert(j == hl);
                    assert(w@.take(hl as int) =~= w@);
                }
            }
            i += hl;
        }
        proof {
            assert(result@ + spec_hashgen_out(alg, data@, 0) =~= result@);
        }
    }

    /// Instantiates the mechanism (SP 800-90A §10.1.1.2). The requested
    /// strength is coerced up to the fixed 256 bits; a request beyond 256
    /// bits fails, as do entropy under 32 bytes and a nonce under 16 bytes.
    pub fn new(alg: HashAlg, entropy: &[u8], nonce: &[u8], pers: &[u8], req_str: &mut usize) -> (r:
        Option<HashDrbgMech>)
        ensures
            *final(req_str) == if *old(req_str) <= 256 {
                256int
            } else {
                *old(req_str) as int
            },
            (r is Some) <==> (*old(req_str) <= 256 && entropy@.len() >= 32 && nonce@.len() >= 16),
            r matches Some(m) ==> {
                &&& m@.inv()
                &&& m@.alg == alg
                &&& m@.zeroized == false
                &&& m@.count == 1
                &&& m@.sec_str == 256
                &&& (m@.v, m@.c) == spec_new_state(alg, entropy@, nonce@, pers@)
            },
    {
        // Security strength beyond what the hash supports is rejected.
        if *req_str > 256 {
            return None;
        }
        *req_str = 256;

        // Entropy and nonce must be long enough for that strength.
        if entropy.len() < 32 || nonce.len() < 16 {
            return None;
        }

        let sl = seed_len_exec(alg);

        // V = Hash_df(entropy || nonce || pers, seedlen) (steps 1-3).
        let mut seed_material: Vec<u8> = Vec::new();
        seed_material.extend_from_slice(entropy);
        seed_material.extend_from_slice(nonce);
        seed_material.extend_from_slice(pers);
        proof {
            assert(seed_material@ =~= entropy@ + nonce@ + pers@);
        }
        let mut v: Vec<u8> = Vec::new();
        hash_df(alg, &mut v, seed_material, sl);

        // C = Hash_df(0x00 || V, seedlen) (step 4).
        let mut c_material: Vec<u8> = Vec::new();
        c_material.push(0x00);
        c_material.extend_from_slice(v.as_slice());
        proof {
            assert(c_material@ =~= seq![0u8] + v@);
        }
        let mut c: Vec<u8> = Vec::new();
        hash_df(alg, &mut c, c_material, sl);

        // Return the instance (steps 5-6).
        Some(HashDrbgMech { v, c, count: 1, zeroized: false, sec_str: 256, alg })
    }

    /// Generates `req_bytes` bytes (SP 800-90A §10.1.1.4). The output vector
    /// is cleared first; it holds exactly `req_bytes` bytes on success and
    /// stays empty on failure. Returns 1 on a destroyed instance, 2 once the
    /// seed life is exhausted, 0 otherwise.
    pub fn generate(&mut self, result: &mut Vec<u8>, req_bytes: usize, add: Option<&[u8]>) -> (r:
        usize)
        requires
            old(self)@.inv(),
            req_bytes <= usize::MAX - 64,
        ensures
            final(self)@.inv(),
            final(self)@.alg == old(self)@.alg,
            final(self)@.sec_str == old(self)@.sec_str,
            (r == 1) <==> old(self)@.zeroized,
            (r == 2) <==> (!old(self)@.zeroized && old(self)@.count >= SEED_LIFE),
            (r == 0) <==> (!old(self)@.zeroized && old(self)@.count < SEED_LIFE),
            r != 0 ==> *final(self) == *old(self) && final(result)@ == Seq::<u8>::empty(),
            r == 0 ==> ({
                let g = spec_generate(
                    old(self)@.alg,
                    old(self)@.v,
                    old(self)@.c,
                    old(self)@.count,
                    req_bytes as nat,
                    opt_bytes(add),
                );
                &&& final(result)@ == g.0
                &&& final(result)@.len() == req_bytes
                &&& final(self)@.v == g.1
                &&& final(self)@.c == old(self)@.c
                &&& final(self)@.count == old(self)@.count + 1
                &&& final(self)@.zeroized == false
            }),
    {
        // The output vector is cleared before anything else.
        if !result.is_empty() {
            result.clear();
        }

        // No generation on a destroyed instance.
        if self.zeroized {
            return 1;
        }

        // The seed life is exhausted: a reseed must intervene (step 1).
        if self.count >= SEED_LIFE {
            return 2;
        }

        let ghost alg = self.alg;
        let ghost v0 = self.v@;
        let ghost p = crate::mechs::utility::pow256(self.v@.len());

        // Mix the additional input into V (step 2).
        if let Some(a) = add {
            let mut w_material: Vec<u8> = Vec::new();
            w_material.push(0x02);
            w_material.extend_from_slice(self.v.as_slice());
            w_material.extend_from_slice(a);
            proof {
                assert(w_material@ =~= seq![2u8] + v0 + a@);
            }
            let w = hash_digest(self.alg, &w_material);

            // V = (V + w) mod 2^seedlen
            let mut v_new: Vec<u8> = Vec::new();
            v_new.extend_from_slice(self.v.as_slice());
            proof {
                assert(v_new@ =~= v0);
            }
            crate::mechs::utility::modular_add_vec(&mut v_new, w);
            proof {
                lemma_be_add_of(v0, v_new@, be_nat(w@));
            }
            self.v = v_new;
        }
        let ghost v1 = self.v@;

        // Generate the requested bytes (step 3).
        self.hashgen(result, req_bytes);

        // H = Hash(0x03 || V) (step 4).
        let mut h_material: Vec<u8> = Vec::new();
        h_material.push(0x03);
        h_material.extend_from_slice(self.v.as_slice());
        proof {
            assert(h_material@ =~= seq![3u8] + v1);
        }
        let h = hash_digest(self.alg, &h_material);

        // V = (V + H + C + count) mod 2^seedlen (step 5).
        let mut v_new: Vec<u8> = Vec::new();
        v_new.extend_from_slice(self.v.as_slice());
        proof {
            assert(v_new@ =~= v1);
        }
        crate::mechs::utility::modular_add_vec(&mut v_new, h);
        let mut c_copy: Vec<u8> = Vec::new();
        c_copy.extend_from_slice(self.c.as_slice());
        proof {
            assert(c_copy@ =~= self.c@);
        }
        crate::mechs::utility::modular_add_vec(&mut v_new, c_copy);
        let ghost x2 = v_new@;
        let cb = be_bytes_4(self.count);
        crate::mechs::utility::modular_add_vec(&mut v_new, cb);
        proof {
            let hn = be_nat(h@);
            let cn = be_nat(self.c@);
            let tn = self.count as int;
            crate::mechs::utility::lemma_pow256_pos(self.v@.len());
            lemma_add_mod_noop_right(cn, be_nat(v1) + hn, p);
            lemma_add_mod_noop_right(tn, be_nat(v1) + hn + cn, p);
            assert(be_nat(x2) == (be_nat(v1) + hn + cn) % p);
            assert(be_nat(v_new@) == (be_nat(v1) + hn + cn + tn) % p);
            lemma_be_add_of(v1, v_new@, hn + cn + tn);
        }
        self.v = v_new;

        // Update the reseed counter (step 6).
        self.count = self.count + 1;
        0
    }

    /// Reseeds the instance (SP 800-90A §10.1.1.3). Returns 1 on a destroyed
    /// instance, 2 when the entropy is under 32 bytes, 0 on success, with the
    /// reseed counter back at 1.
    pub fn reseed(&mut self, entropy: &[u8], add: Option<&[u8]>) -> (r: usize)
        requires
            old(self)@.inv(),
        ensures
            final(self)@.inv(),
            final(self)@.alg == old(self)@.alg,
            final(self)@.sec_str == old(self)@.sec_str,
            (r == 1) <==> old(self)@.zeroized,
            (r == 2) <==> (!old(self)@.zeroized && entropy@.len() < 32),
            (r == 0) <==> (!old(self)@.zeroized && entropy@.len() >= 32),
            r != 0 ==> *final(self) == *old(self),
            r == 0 ==> ({
                let vc = spec_reseed(old(self)@.alg, old(self)@.v, entropy@, opt_bytes(add));
                &&& final(self)@.v == vc.0
                &&& final(self)@.c == vc.1
                &&& final(self)@.count == 1
                &&& final(self)@.zeroized == false
            }),
    {
        // Nothing to be done on a destroyed instance.
        if self.zeroized {
            return 1;
        }

        // The entropy must cover the supported strength.
        if entropy.len() < self.sec_str / 8 {
            return 2;
        }

        let sl = seed_len_exec(self.alg);

        // V = Hash_df(0x01 || V || entropy || add, seedlen) (steps 1-3).
        let mut seed_material: Vec<u8> = Vec::new();
        seed_material.push(0x01);
        seed_material.extend_from_slice(self.v.as_slice());
        seed_material.extend_from_slice(entropy);
        if let Some(a) = add {
            seed_material.extend_from_slice(a);
            proof {
                assert(seed_material@ =~= seq![1u8] + self.v@ + entropy@ + a@);
            }
        } else {
            proof {
                assert(seed_material@ =~= seq![1u8] + self.v@ + entropy@ + Seq::<u8>::empty());
            }
        }
        let mut v_new: Vec<u8> = Vec::new();
        hash_df(self.alg, &mut v_new, seed_material, sl);

        // C = Hash_df(0x00 || V, seedlen) (step 4).
        let mut c_material: Vec<u8> = Vec::new();
        c_material.push(0x00);
        c_material.extend_from_slice(v_new.as_slice());
        proof {
            assert(c_material@ =~= seq![0u8] + v_new@);
        }
        let mut c_new: Vec<u8> = Vec::new();
        hash_df(self.alg, &mut c_new, c_material, sl);

        self.v = v_new;
        self.c = c_new;

        // Re-initialise the reseed counter (step 5).
        self.count = 1;
        0
    }

    /// Destroys the instance: every secret byte is overwritten with zero.
    /// Returns 1 if the instance was already destroyed.
    pub fn zeroize(&mut self) -> (r: usize)
        requires
            old(self)@.inv(),
        ensures
            final(self)@.inv(),
            final(self)@.alg == old(self)@.alg,
            final(self)@.sec_str == old(self)@.sec_str,
            (r == 1) <==> old(self)@.zeroized,
            old(self)@.zeroized ==> *final(self) == *old(self),
            !old(self)@.zeroized ==> r == 0,
            final(self)@.zeroized,
            final(self)@.v == repeat_byte(0, seed_len(old(self)@.alg)),
            final(self)@.c == repeat_byte(0, seed_len(old(self)@.alg)),
            final(self)@.count == 0,
    {
        if self.zeroized {
            return 1;
        }
        zero_fill(&mut self.v);
        zero_fill(&mut self.c);
        self.count = 0;
        self.zeroized = true;
        0
    }

    /// The reseed counter.
    pub fn count(&self) -> (r: usize)
        ensures
            r as nat == self@.count,
    {
        self.count
    }

    /// True once the seed life is exhausted: the next generate needs a
    /// reseed first.
    pub fn reseed_needed(&self) -> (r: bool)
        ensures
            r == (self@.count >= SEED_LIFE),
    {
        self.count >= SEED_LIFE
    }

    /// Whether the instance has been destroyed.
    pub fn _is_zeroized(&self) -> (r: bool)
        ensures
            r == self@.zeroized,
    {
        self.zeroized
    }

    /// Whether both secrets hold only zero bytes.
    pub fn secrets_wiped(&self) -> (r: bool)
        ensures
            r == (self@.v == repeat_byte(0, self@.v.len()) && self@.c == repeat_byte(
                0,
                self@.c.len(),
            )),
    {
        let mut i: usize = 0;
        let n = self.v.len();
        while i < n
            invariant
                i <= n,
                n == self.v@.len(),
                forall|t: int| 0 <= t < i ==> self.v@[t] == 0u8,
            decreases n - i,
        {
            if self.v[i] != 0 {
                proof {
                    assert(self.v@ != repeat_byte(0, self.v@.len()));
                }
                return false;
            }
            i += 1;
        }
        let mut j: usize = 0;
        let m = self.c.len();
        while j < m
            invariant
                j <= m,
                m == self.c@.len(),
                forall|t: int| 0 <= t < j ==> self.c@[t] == 0u8,
            decreases m - j,
        {
            if self.c[j] != 0 {
                proof {
                    assert(self.c@ != repeat_byte(0, self.c@.len()));
                }
                return false;
            }
            j += 1;
        }
        proof {
            assert(self.v@ =~= repeat_byte(0, self.v@.len()));
            assert(self.c@ =~= repeat_byte(0, self.c@.len()));
        }
        true
    }

    /// The mechanism's name.
    pub fn drbg_name() -> (r: String)
        ensures
            r@ == "Hash-DRBG"@,
    {
        "Hash-DRBG".to_string()
    }

    /// The number of generate calls a seed may serve.
    pub fn seed_life() -> (r: usize)
        ensures
            r == SEED_LIFE,
    {
        SEED_LIFE
    }
}

/// Determinism law: two instances instantiated with identical entropy,
/// nonce and personalization strings hold identical state; and two
/// instances in identical states, driven by the same generate or reseed
/// arguments, produce identical outputs and identical successor states.
pub proof fn lemma_determinism(
    alg: HashAlg,
    e1: Seq<u8>,
    n1: Seq<u8>,
    p1: Seq<u8>,
    e2: Seq<u8>,
    n2: Seq<u8>,
    p2: Seq<u8>,
    s1: HashState,
    s2: HashState,
    req: nat,
    add: Option<Seq<u8>>,
    entropy: Seq<u8>,
)
    requires
        e1 == e2,
        n1 == n2,
        p1 == p2,
        s1.v == s2.v,
        s1.c == s2.c,
        s1.count == s2.count,
    ensures
        spec_new_state(alg, e1, n1, p1) == spec_new_state(alg, e2, n2, p2),
        spec_generate(alg, s1.v, s1.c, s1.count, req, add) == spec_generate(
            alg,
            s2.v,
            s2.c,
            s2.count,
            req,
            add,
        ),
        spec_reseed(alg, s1.v, entropy, add) == spec_reseed(alg, s2.v, entropy, add),
{
}

} // verus!
