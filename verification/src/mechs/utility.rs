//! Byte-level arithmetic shared by the DRBG mechanisms.
//!
//! A vector of bytes is read as a big-endian unsigned integer. The three
//! exported routines add a byte, add a shorter vector, and XOR two vectors,
//! all modulo `2^(8 * len)`; their contracts are stated over the mathematical
//! value [`be_nat`] of the vector.

use vstd::arithmetic::div_mod::{
    lemma_breakdown, lemma_fundamental_div_mod, lemma_mod_add_multiples_vanish, lemma_small_mod,
};
use vstd::arithmetic::mul::{
    lemma_mul_inequality, lemma_mul_is_associative, lemma_mul_is_commutative,
    lemma_mul_is_distributive_add_other_way, lemma_mul_nonnegative,
};
use vstd::prelude::*;

verus! {

/// `256^n`, the number of values a big-endian byte vector of length `n` can take.
pub open spec fn pow256(n: nat) -> int
    decreases n,
{
    if n == 0 {
        1
    } else {
        256 * pow256((n - 1) as nat)
    }
}

/// The value of `s` read as a big-endian unsigned integer.
pub open spec fn be_nat(s: Seq<u8>) -> int
    decreases s.len(),
{
    if s.len() == 0 {
        0
    } else {
        s.first() * pow256((s.len() - 1) as nat) + be_nat(s.drop_first())
    }
}

/// The big-endian byte vector of length `len` whose value is `n % pow256(len)`.
pub open spec fn nat_to_be(len: nat, n: int) -> Seq<u8>
    decreases len,
{
    if len == 0 {
        Seq::empty()
    } else {
        nat_to_be((len - 1) as nat, n / 256).push((n % 256) as u8)
    }
}

/// The pointwise XOR of two equal-length byte sequences.
pub open spec fn xor_seq(a: Seq<u8>, b: Seq<u8>) -> Seq<u8> {
    Seq::new(a.len(), |i: int| a[i] ^ b[i])
}

pub proof fn lemma_pow256_pos(n: nat)
    ensures
        pow256(n) >= 1,
    decreases n,
{
    if n > 0 {
        lemma_pow256_pos((n - 1) as nat);
    }
}

/// A big-endian vector of length `n` holds a value in `[0, pow256(n))`.
pub proof fn lemma_be_nat_bound(s: Seq<u8>)
    ensures
        0 <= be_nat(s) < pow256(s.len()),
    decreases s.len(),
{
    if s.len() == 0 {
    } else {
        lemma_be_nat_bound(s.drop_first());
        lemma_pow256_pos((s.len() - 1) as nat);
        lemma_mul_inequality(s.first() as int, 255, pow256((s.len() - 1) as nat));
        lemma_mul_nonnegative(s.first() as int, pow256((s.len() - 1) as nat));
    }
}

/// Appending a byte multiplies the value by 256 and adds the byte.
pub proof fn lemma_be_nat_snoc(s: Seq<u8>, b: u8)
    ensures
        be_nat(s.push(b)) == be_nat(s) * 256 + b,
    decreases s.len(),
{
    if s.len() == 0 {
        assert(s.push(b).drop_first() =~= Seq::<u8>::empty());
        assert(s.push(b).first() == b);
        assert(be_nat(Seq::<u8>::empty()) == 0);
        assert(pow256(0) == 1);
    } else {
        assert(s.push(b).drop_first() =~= s.drop_first().push(b));
        assert(s.push(b).first() == s.first());
        lemma_be_nat_snoc(s.drop_first(), b);
        let f = s.first() as int;
        let p = pow256((s.len() - 1) as nat);
        let r = be_nat(s.drop_first());
        lemma_mul_is_distributive_add_other_way(256, f * p, r);
        lemma_mul_is_associative(f, p, 256);
        lemma_mul_is_commutative(p, 256);
        lemma_mul_is_commutative(f * p, 256);
        lemma_mul_is_commutative(f, 256 * p);
        lemma_mul_is_associative(256, f, p);
        lemma_mul_is_commutative(256, f);
    }
}

/// A byte vector is recovered from its big-endian value and its length.
pub proof fn lemma_be_nat_inverse(s: Seq<u8>)
    ensures
        nat_to_be(s.len(), be_nat(s)) == s,
    decreases s.len(),
{
    if s.len() == 0 {
        assert(nat_to_be(0, be_nat(s)) =~= s);
    } else {
        lemma_be_nat_inverse(s.drop_last());
        lemma_be_nat_snoc(s.drop_last(), s.last());
        assert(s.drop_last().push(s.last()) =~= s);
        let m = be_nat(s.drop_last());
        let b = s.last() as int;
        lemma_be_nat_bound(s.drop_last());
        assert((m * 256 + b) / 256 == m && (m * 256 + b) % 256 == b) by (nonlinear_arith)
            requires
                0 <= b < 256,
                0 <= m,
        ;
        assert(nat_to_be(s.len(), be_nat(s)) =~= s);
    }
}

/// `pow256(a + b) == pow256(a) * pow256(b)`.
pub proof fn lemma_pow256_split(a: nat, b: nat)
    ensures
        pow256(a + b) == pow256(a) * pow256(b),
    decreases a,
{
    if a == 0 {
    } else {
        lemma_pow256_split((a - 1) as nat, b);
        assert(((a + b) - 1) as nat == (a - 1) as nat + b);
        lemma_mul_is_associative(256, pow256((a - 1) as nat), pow256(b));
    }
}

/// `pow256` is monotone in the length.
pub proof fn lemma_pow256_le(a: nat, b: nat)
    requires
        a <= b,
    ensures
        pow256(a) <= pow256(b),
{
    lemma_pow256_split(a, (b - a) as nat);
    lemma_pow256_pos(a);
    lemma_pow256_pos((b - a) as nat);
    lemma_mul_inequality(1, pow256((b - a) as nat), pow256(a));
    lemma_mul_is_commutative(pow256((b - a) as nat), pow256(a));
}

/// Adds `rhs` into `num`, read as a big-endian integer, modulo `2^(8*len)`:
/// the carry runs from the right-most byte towards the left and a carry out
/// of the left-most byte is discarded. An empty vector is left unchanged.
pub fn modular_add(num: &mut Vec<u8>, rhs: u8)
    ensures
        final(num)@.len() == old(num)@.len(),
        be_nat(final(num)@) == (be_nat(old(num)@) + rhs) % pow256(old(num)@.len()),
{
    let len = num.len();
    if len == 0 {
        proof {
            let v = be_nat(old(num)@) + rhs;
            assert(v % 1 == 0) by (nonlinear_arith);
        }
        return;
    }
    let mut carry: u16 = rhs as u16;
    let mut t: usize = 0;
    while t < len
        invariant
            len == num@.len(),
            len == old(num)@.len(),
            t <= len,
            carry <= if t == 0 { 255int } else { 1int },
            num@.take((len - t) as int) == old(num)@.take((len - t) as int),
            be_nat(num@.skip((len - t) as int)) + carry * pow256(t as nat) == be_nat(
                old(num)@.skip((len - t) as int),
            ) + rhs,
        decreases len - t,
    {
        let j = len - 1 - t;
        let ghost pre = num@;
        let sum: u16 = num[j] as u16 + carry;
        num[j] = (sum % 256) as u8;
        let new_carry: u16 = sum / 256;
        proof {
            let ji = j as int;
            assert(num@ =~= pre.update(ji, (sum % 256) as u8));
            assert(num@.take(ji) =~= pre.take(ji));
            assert(pre.take(ji) =~= old(num)@.take(ji));
            assert(num@.skip(ji + 1) =~= pre.skip(ji + 1));
            assert(num@.skip(ji).drop_first() =~= num@.skip(ji + 1));
            assert(old(num)@.skip(ji).drop_first() =~= old(num)@.skip(ji + 1));
            assert(num@.skip(ji).first() == sum % 256);
            assert(pre[ji] == old(num)@[ji]) by {
                assert(pre.take(ji + 1) =~= old(num)@.take(ji + 1));
                assert(pre.take(ji + 1)[ji] == pre[ji]);
            }
            assert(old(num)@.skip(ji).first() == old(num)@[ji]);
            let s0 = (sum % 256) as int;
            let nc = new_carry as int;
            let ob = old(num)@[ji] as int;
            let ci = carry as int;
            let pi = pow256(t as nat);
            lemma_fundamental_div_mod(sum as int, 256);
            assert(s0 + 256 * nc == ob + ci);
            lemma_mul_is_distributive_add_other_way(pi, s0, 256 * nc);
            lemma_mul_is_distributive_add_other_way(pi, ob, ci);
            lemma_mul_is_associative(256, nc, pi);
            lemma_mul_is_commutative(256 * nc, pi);
            lemma_mul_is_commutative(s0, pi);
            lemma_mul_is_commutative(ob, pi);
            lemma_mul_is_commutative(ci, pi);
            lemma_mul_is_commutative(nc, 256 * pi);
            lemma_mul_is_associative(256, pi, nc);
            lemma_mul_is_commutative(pi, nc);
        }
        carry = new_carry;
        t += 1;
    }
    proof {
        assert(num@.skip(0) =~= num@);
        assert(old(num)@.skip(0) =~= old(num)@);
        let p = pow256(len as nat);
        lemma_be_nat_bound(num@);
        lemma_be_nat_bound(old(num)@);
        if carry == 0 {
            lemma_small_mod(be_nat(num@) as nat, p as nat);
        } else {
            lemma_mod_add_multiples_vanish(be_nat(num@), p);
            lemma_small_mod(be_nat(num@) as nat, p as nat);
        }
    }
}

/// Adds the big-endian integer `num2` into `num1` modulo `2^(8*len(num1))`,
/// aligning `num2` with the least-significant end of `num1`; the carry runs
/// past `num2`'s leading edge into the higher bytes of `num1`. If `num2` is
/// longer than `num1`, both are left unchanged.
pub fn modular_add_vec(num1: &mut Vec<u8>, num2: Vec<u8>)
    ensures
        final(num1)@.len() == old(num1)@.len(),
        num2@.len() <= old(num1)@.len() ==> be_nat(final(num1)@) == (be_nat(old(num1)@) + be_nat(
            num2@,
        )) % pow256(old(num1)@.len()),
        num2@.len() > old(num1)@.len() ==> final(num1)@ == old(num1)@,
{
    let len1 = num1.len();
    let len2 = num2.len();
    if len2 > len1 {
        return;
    }
    if len1 == 0 {
        proof {
            assert(num2@ =~= Seq::<u8>::empty());
            let v = be_nat(old(num1)@) + be_nat(num2@);
            assert(v % 1 == 0) by (nonlinear_arith);
        }
        return;
    }
    let mut carry: u16 = 0;
    let mut t: usize = 0;
    proof {
        assert(num2@.skip(len2 as int) =~= Seq::<u8>::empty());
    }
    while t < len1
        invariant
            len1 == num1@.len(),
            len1 == old(num1)@.len(),
            len2 == num2@.len(),
            len2 <= len1,
            t <= len1,
            carry <= 1,
            num1@.take((len1 - t) as int) == old(num1)@.take((len1 - t) as int),
            be_nat(num1@.skip((len1 - t) as int)) + carry * pow256(t as nat) == be_nat(
                old(num1)@.skip((len1 - t) as int),
            ) + be_nat(num2@.skip(if t < len2 { (len2 - t) as int } else { 0int })),
        decreases len1 - t,
    {
        let j = len1 - 1 - t;
        let addend: u8 = if t < len2 { num2[len2 - 1 - t] } else { 0 };
        let ghost pre = num1@;
        let sum: u16 = num1[j] as u16 + addend as u16 + carry;
        num1[j] = (sum % 256) as u8;
        let new_carry: u16 = sum / 256;
        proof {
            let ji = j as int;
            assert(num1@ =~= pre.update(ji, (sum % 256) as u8));
            assert(num1@.take(ji) =~= pre.take(ji));
            assert(pre.take(ji) =~= old(num1)@.take(ji));
            assert(num1@.skip(ji + 1) =~= pre.skip(ji + 1));
            assert(num1@.skip(ji).drop_first() =~= num1@.skip(ji + 1));
            assert(old(num1)@.skip(ji).drop_first() =~= old(num1)@.skip(ji + 1));
            assert(num1@.skip(ji).first() == sum % 256);
            assert(pre[ji] == old(num1)@[ji]) by {
                assert(pre.take(ji + 1) =~= old(num1)@.take(ji + 1));
                assert(pre.take(ji + 1)[ji] == pre[ji]);
            }
            assert(old(num1)@.skip(ji).first() == old(num1)@[ji]);
            let s0 = (sum % 256) as int;
            let nc = new_carry as int;
            let ob = old(num1)@[ji] as int;
            let ad = addend as int;
            let ci = carry as int;
            let pi = pow256(t as nat);
            lemma_fundamental_div_mod(sum as int, 256);
            assert(s0 + 256 * nc == ob + ad + ci);
            if t < len2 {
                let k2 = (len2 - t) as int;
                assert(num2@.skip(k2 - 1).drop_first() =~= num2@.skip(k2));
                assert(num2@.skip(k2 - 1).first() == num2@[k2 - 1]);
                assert(num2@[k2 - 1] == addend);
            }
            lemma_mul_is_distributive_add_other_way(pi, s0, 256 * nc);
            lemma_mul_is_distributive_add_other_way(pi, ob + ad, ci);
            lemma_mul_is_distributive_add_other_way(pi, ob, ad);
            lemma_mul_is_associative(256, nc, pi);
            lemma_mul_is_commutative(256 * nc, pi);
            lemma_mul_is_commutative(nc, 256 * pi);
            lemma_mul_is_associative(256, pi, nc);
            lemma_mul_is_commutative(pi, nc);
        }
        carry = new_carry;
        t += 1;
    }
    proof {
        assert(num1@.skip(0) =~= num1@);
        assert(old(num1)@.skip(0) =~= old(num1)@);
        assert(num2@.skip(0) =~= num2@);
        let p = pow256(len1 as nat);
        lemma_be_nat_bound(num1@);
        lemma_be_nat_bound(old(num1)@);
        lemma_be_nat_bound(num2@);
        lemma_pow256_le(len2 as nat, len1 as nat);
        if carry == 0 {
            lemma_small_mod(be_nat(num1@) as nat, p as nat);
        } else {
            lemma_mod_add_multiples_vanish(be_nat(num1@), p);
            lemma_small_mod(be_nat(num1@) as nat, p as nat);
        }
    }
}

/// The big-endian vector `s` with `x` added into it modulo `2^(8*len)`.
pub open spec fn be_add(s: Seq<u8>, x: int) -> Seq<u8> {
    nat_to_be(s.len(), (be_nat(s) + x) % pow256(s.len()))
}

/// A vector with the length of `s` whose value is `(be_nat(s) + x)` modulo
/// `2^(8*len)` is exactly `be_add(s, x)`.
pub proof fn lemma_be_add_of(s: Seq<u8>, t: Seq<u8>, x: int)
    requires
        t.len() == s.len(),
        be_nat(t) == (be_nat(s) + x) % pow256(s.len()),
    ensures
        t == be_add(s, x),
{
    lemma_be_nat_inverse(t);
}

/// The length of an optional byte-string argument; absent means empty.
pub open spec fn opt_len(o: Option<&[u8]>) -> nat {
    match o {
        Some(p) => p@.len(),
        None => 0,
    }
}

/// The view of an optional byte-vector argument.
pub open spec fn opt_bytes(o: Option<&[u8]>) -> Option<Seq<u8>> {
    match o {
        Some(v) => Some(v@),
        None => None,
    }
}

/// `n` copies of the byte `b`.
pub open spec fn repeat_byte(b: u8, n: nat) -> Seq<u8> {
    Seq::new(n, |i: int| b)
}

/// Builds a vector of `n` copies of the byte `b`.
pub fn repeat_bytes(b: u8, n: usize) -> (r: Vec<u8>)
    ensures
        r@ == repeat_byte(b, n as nat),
{
    let mut r: Vec<u8> = Vec::new();
    let mut i: usize = 0;
    while i < n
        invariant
            i <= n,
            r@ =~= repeat_byte(b, i as nat),
        decreases n - i,
    {
        r.push(b);
        proof {
            assert(r@ =~= repeat_byte(b, (i + 1) as nat));
        }
        i += 1;
    }
    proof {
        assert(r@ =~= repeat_byte(b, n as nat));
    }
    r
}

/// Encodes `x` as four big-endian bytes.
pub fn be_bytes_4(x: usize) -> (r: Vec<u8>)
    requires
        x < 0x1_0000_0000,
    ensures
        r@ == nat_to_be(4, x as int),
        r@.len() == 4,
        be_nat(r@) == x,
{
    let b0: u8 = ((x / 0x1000000) % 256) as u8;
    let b1: u8 = ((x / 0x10000) % 256) as u8;
    let b2: u8 = ((x / 0x100) % 256) as u8;
    let b3: u8 = (x % 256) as u8;
    let mut r: Vec<u8> = Vec::new();
    r.push(b0);
    r.push(b1);
    r.push(b2);
    r.push(b3);
    proof {
        let xi = x as int;
        assert(be_nat(Seq::<u8>::empty()) == 0);
        assert(pow256(0) == 1);
        lemma_be_nat_snoc(Seq::<u8>::empty(), b0);
        lemma_be_nat_snoc(Seq::<u8>::empty().push(b0), b1);
        lemma_be_nat_snoc(Seq::<u8>::empty().push(b0).push(b1), b2);
        lemma_be_nat_snoc(Seq::<u8>::empty().push(b0).push(b1).push(b2), b3);
        assert(r@ =~= Seq::<u8>::empty().push(b0).push(b1).push(b2).push(b3));
        assert(be_nat(Seq::<u8>::empty().push(b0)) == b0);
        // the three div/mod breakdowns of x at 2^24, 2^16 and 2^8
        lemma_fundamental_div_mod(xi, 0x1000000);
        lemma_small_mod((xi / 0x1000000) as nat, 256);
        lemma_breakdown(xi, 0x10000, 256);
        lemma_breakdown(xi, 0x100, 256);
        assert(be_nat(r@) == ((b0 * 256 + b1) * 256 + b2) * 256 + b3);
        assert(be_nat(r@) == x);
        lemma_be_nat_inverse(r@);
    }
    r
}

/// Overwrites every byte of `buf` with zero, in place: the buffer keeps its
/// length and its storage, only the contents are destroyed.
pub fn zero_fill(buf: &mut Vec<u8>)
    ensures
        final(buf)@ == repeat_byte(0, old(buf)@.len()),
{
    let n = buf.len();
    let mut i: usize = 0;
    while i < n
        invariant
            n == buf@.len(),
            i <= n,
            forall|k: int| 0 <= k < i ==> buf@[k] == 0u8,
        decreases n - i,
    {
        buf[i] = 0;
        i += 1;
    }
    proof {
        assert(buf@ =~= repeat_byte(0, n as nat));
    }
}

/// XORs `vec2` into `vec1`, byte by byte. Vectors of different lengths are
/// left unchanged.
pub fn xor_vecs(vec1: &mut Vec<u8>, vec2: &Vec<u8>)
    ensures
        final(vec1)@.len() == old(vec1)@.len(),
        old(vec1)@.len() == vec2@.len() ==> final(vec1)@ == xor_seq(old(vec1)@, vec2@),
        old(vec1)@.len() != vec2@.len() ==> final(vec1)@ == old(vec1)@,
{
    let n = vec1.len();
    if n != vec2.len() {
        return;
    }
    let mut i: usize = 0;
    while i < n
        invariant
            n == vec1@.len(),
            n == old(vec1)@.len(),
            n == vec2@.len(),
            i <= n,
            forall|k: int| 0 <= k < i ==> vec1@[k] == (old(vec1)@[k] ^ vec2@[k]),
            forall|k: int| i <= k < n ==> vec1@[k] == old(vec1)@[k],
        decreases n - i,
    {
        let b: u8 = vec1[i] ^ vec2[i];
        vec1[i] = b;
        i += 1;
    }
    proof {
        assert(vec1@ =~= xor_seq(old(vec1)@, vec2@));
    }
}

} // verus!
