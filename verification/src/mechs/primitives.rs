//! The cryptographic primitives the mechanisms are built on: HMAC and plain
//! digests over SHA-256/SHA-512, and single-block AES encryption.
//!
//! Each primitive is an outside computation whose value is a pure function of
//! its arguments; it is given an uninterpreted name (`..._of`) and reached
//! through one trusted wrapper per outside function. The dispatching helpers
//! below the wrappers are verified.

use sha2::Digest;
use vstd::prelude::*;

verus! {

/// The two hash functions the HMAC and Hash mechanisms accept.
#[derive(Clone, Copy, PartialEq, Eq, Structural)]
pub enum HashAlg {
    Sha256,
    Sha512,
}

/// The three block ciphers the CTR mechanism accepts.
#[derive(Clone, Copy, PartialEq, Eq, Structural)]
pub enum AesAlg {
    Aes128,
    Aes192,
    Aes256,
}

/// Output length in bytes of the hash function.
pub open spec fn hash_len(alg: HashAlg) -> nat {
    match alg {
        HashAlg::Sha256 => 32,
        HashAlg::Sha512 => 64,
    }
}

/// Key length in bytes of the block cipher.
pub open spec fn key_len(alg: AesAlg) -> nat {
    match alg {
        AesAlg::Aes128 => 16,
        AesAlg::Aes192 => 24,
        AesAlg::Aes256 => 32,
    }
}

/// The block length in bytes of every supported block cipher.
pub const BLOCK_LEN: usize = 16;

/// Output length in bytes of the hash function, as a runtime value.
pub fn hash_len_exec(alg: HashAlg) -> (r: usize)
    ensures
        r as nat == hash_len(alg),
{
    match alg {
        HashAlg::Sha256 => 32,
        HashAlg::Sha512 => 64,
    }
}

/// Key length in bytes of the block cipher, as a runtime value.
pub fn key_len_exec(alg: AesAlg) -> (r: usize)
    ensures
        r as nat == key_len(alg),
{
    match alg {
        AesAlg::Aes128 => 16,
        AesAlg::Aes192 => 24,
        AesAlg::Aes256 => 32,
    }
}

/// What `Hmac<Sha256>` computes from a key and a message.
pub uninterp spec fn hmac_sha256_of(key: Seq<u8>, data: Seq<u8>) -> Seq<u8>;

/// What `Hmac<Sha512>` computes from a key and a message.
pub uninterp spec fn hmac_sha512_of(key: Seq<u8>, data: Seq<u8>) -> Seq<u8>;

/// The SHA-256 digest of a message.
pub uninterp spec fn sha256_of(data: Seq<u8>) -> Seq<u8>;

/// The SHA-512 digest of a message.
pub uninterp spec fn sha512_of(data: Seq<u8>) -> Seq<u8>;

/// The AES-128 encryption of one block under a 16-byte key.
pub uninterp spec fn aes128_enc_of(key: Seq<u8>, block: Seq<u8>) -> Seq<u8>;

/// The AES-192 encryption of one block under a 24-byte key.
pub uninterp spec fn aes192_enc_of(key: Seq<u8>, block: Seq<u8>) -> Seq<u8>;

/// The AES-256 encryption of one block under a 32-byte key.
pub uninterp spec fn aes256_enc_of(key: Seq<u8>, block: Seq<u8>) -> Seq<u8>;

/// Relies on `hmac::Hmac<sha2::Sha256>`: a MAC of 32 bytes that depends on
/// the key and the message alone; any key length is accepted.
#[verifier::external_body]
fn hmac_sha256(key: &Vec<u8>, data: &Vec<u8>) -> (r: Vec<u8>)
    ensures
        r@ == hmac_sha256_of(key@, data@),
        r@.len() == 32,
{
    let mut mac = <hmac::Hmac<sha2::Sha256> as sha2::digest::KeyInit>::new_from_slice(key)
        .expect("HMAC accepts keys of any length");
    sha2::digest::Mac::update(&mut mac, data);
    sha2::digest::Mac::finalize(mac).into_bytes().to_vec()
}

/// Relies on `hmac::Hmac<sha2::Sha512>`: a MAC of 64 bytes that depends on
/// the key and the message alone; any key length is accepted.
#[verifier::external_body]
fn hmac_sha512(key: &Vec<u8>, data: &Vec<u8>) -> (r: Vec<u8>)
    ensures
        r@ == hmac_sha512_of(key@, data@),
        r@.len() == 64,
{
    let mut mac = <hmac::Hmac<sha2::Sha512> as sha2::digest::KeyInit>::new_from_slice(key)
        .expect("HMAC accepts keys of any length");
    sha2::digest::Mac::update(&mut mac, data);
    sha2::digest::Mac::finalize(mac).into_bytes().to_vec()
}

/// Relies on `sha2::Sha256`: a digest of 32 bytes that depends on the
/// message alone.
#[verifier::external_body]
fn sha256(data: &Vec<u8>) -> (r: Vec<u8>)
    ensures
        r@ == sha256_of(data@),
        r@.len() == 32,
{
    sha2::Sha256::digest(data).to_vec()
}

/// Relies on `sha2::Sha512`: a digest of 64 bytes that depends on the
/// message alone.
#[verifier::external_body]
fn sha512(data: &Vec<u8>) -> (r: Vec<u8>)
    ensures
        r@ == sha512_of(data@),
        r@.len() == 64,
{
    sha2::Sha512::digest(data).to_vec()
}

/// Relies on `aes::Aes128` (`cipher::BlockCipherEncrypt::encrypt_block`):
/// encrypts one 16-byte block under a 16-byte key.
#[verifier::external_body]
fn aes128_encrypt(key: &Vec<u8>, block: &Vec<u8>) -> (r: Vec<u8>)
    requires
        key@.len() == 16,
        block@.len() == 16,
    ensures
        r@ == aes128_enc_of(key@, block@),
        r@.len() == 16,
{
    let cipher = <aes::Aes128 as aes::cipher::KeyInit>::new_from_slice(key)
        .expect("the key is 16 bytes");
    let mut b = aes::cipher::Array::try_from(&block[..]).expect("the block is 16 bytes");
    aes::cipher::BlockCipherEncrypt::encrypt_block(&cipher, &mut b);
    b.to_vec()
}

/// Relies on `aes::Aes192` (`cipher::BlockCipherEncrypt::encrypt_block`):
/// encrypts one 16-byte block under a 24-byte key.
#[verifier::external_body]
fn aes192_encrypt(key: &Vec<u8>, block: &Vec<u8>) -> (r: Vec<u8>)
    requires
        key@.len() == 24,
        block@.len() == 16,
    ensures
        r@ == aes192_enc_of(key@, block@),
        r@.len() == 16,
{
    let cipher = <aes::Aes192 as aes::cipher::KeyInit>::new_from_slice(key)
        .expect("the key is 24 bytes");
    let mut b = aes::cipher::Array::try_from(&block[..]).expect("the block is 16 bytes");
    aes::cipher::BlockCipherEncrypt::encrypt_block(&cipher, &mut b);
    b.to_vec()
}

/// Relies on `aes::Aes256` (`cipher::BlockCipherEncrypt::encrypt_block`):
/// encrypts one 16-byte block under a 32-byte key.
#[verifier::external_body]
fn aes256_encrypt(key: &Vec<u8>, block: &Vec<u8>) -> (r: Vec<u8>)
    requires
        key@.len() == 32,
        block@.len() == 16,
    ensures
        r@ == aes256_enc_of(key@, block@),
        r@.len() == 16,
{
    let cipher = <aes::Aes256 as aes::cipher::KeyInit>::new_from_slice(key)
        .expect("the key is 32 bytes");
    let mut b = aes::cipher::Array::try_from(&block[..]).expect("the block is 16 bytes");
    aes::cipher::BlockCipherEncrypt::encrypt_block(&cipher, &mut b);
    b.to_vec()
}

/// The MAC computed by the chosen hash function.
pub open spec fn spec_hmac(alg: HashAlg, key: Seq<u8>, data: Seq<u8>) -> Seq<u8> {
    match alg {
        HashAlg::Sha256 => hmac_sha256_of(key, data),
        HashAlg::Sha512 => hmac_sha512_of(key, data),
    }
}

/// The digest computed by the chosen hash function.
pub open spec fn spec_hash(alg: HashAlg, data: Seq<u8>) -> Seq<u8> {
    match alg {
        HashAlg::Sha256 => sha256_of(data),
        HashAlg::Sha512 => sha512_of(data),
    }
}

/// The single-block encryption computed by the chosen block cipher.
pub open spec fn spec_aes_enc(alg: AesAlg, key: Seq<u8>, block: Seq<u8>) -> Seq<u8> {
    match alg {
        AesAlg::Aes128 => aes128_enc_of(key, block),
        AesAlg::Aes192 => aes192_enc_of(key, block),
        AesAlg::Aes256 => aes256_enc_of(key, block),
    }
}

/// HMAC under the chosen hash function.
pub fn hmac(alg: HashAlg, key: &Vec<u8>, data: &Vec<u8>) -> (r: Vec<u8>)
    ensures
        r@ == spec_hmac(alg, key@, data@),
        r@.len() == hash_len(alg),
{
    match alg {
        HashAlg::Sha256 => hmac_sha256(key, data),
        HashAlg::Sha512 => hmac_sha512(key, data),
    }
}

/// Digest under the chosen hash function.
pub fn hash_digest(alg: HashAlg, data: &Vec<u8>) -> (r: Vec<u8>)
    ensures
        r@ == spec_hash(alg, data@),
        r@.len() == hash_len(alg),
{
    match alg {
        HashAlg::Sha256 => sha256(data),
        HashAlg::Sha512 => sha512(data),
    }
}

/// Single-block encryption under the chosen block cipher.
pub fn aes_encrypt(alg: AesAlg, key: &Vec<u8>, block: &Vec<u8>) -> (r: Vec<u8>)
    requires
        key@.len() == key_len(alg),
        block@.len() == 16,
    ensures
        r@ == spec_aes_enc(alg, key@, block@),
        r@.len() == 16,
{
    match alg {
        AesAlg::Aes128 => aes128_encrypt(key, block),
        AesAlg::Aes192 => aes192_encrypt(key, block),
        AesAlg::Aes256 => aes256_encrypt(key, block),
    }
}

} // verus!
