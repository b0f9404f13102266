//! The calls into the cryptography and randomness crates, each with the
//! contract that the library relies on.

use vstd::prelude::*;

use chacha20poly1305::aead::{Aead, KeyInit};
use rand::Rng;
use rand::RngCore;
use sha2::Digest;

verus! {

/// The error type of the `argon2` crate, carried through opaquely.
#[verifier::external_type_specification]
#[verifier::external_body]
pub struct ExArgon2Error(argon2::Error);

/// The Argon2id digest (default parameters of the `argon2` crate) of
/// `password` with `salt`, `len` bytes long.
pub uninterp spec fn argon2id_digest(password: Seq<u8>, salt: Seq<u8>, len: nat) -> Seq<u8>;

/// The XChaCha20-Poly1305 ciphertext (encrypted message followed by the
/// 16-byte tag, no associated data) of `plaintext` under `key` and `nonce`.
pub uninterp spec fn xchacha_sealed(key: Seq<u8>, nonce: Seq<u8>, plaintext: Seq<u8>) -> Seq<u8>;

/// What XChaCha20-Poly1305 decryption of `ciphertext` under `key` and `nonce`
/// gives: the plaintext, or `None` when the ciphertext does not authenticate.
pub uninterp spec fn xchacha_opened(key: Seq<u8>, nonce: Seq<u8>, ciphertext: Seq<u8>) -> Option<
    Seq<u8>,
>;

/// The SHA-256 digest of `data`.
pub uninterp spec fn sha256_digest(data: Seq<u8>) -> Seq<u8>;

/// The lengths for which the default `argon2::Argon2` hashes: output of 4 to
/// 2^32 - 1 bytes, password of at most 2^32 - 1 bytes, salt of 8 to 2^32 - 1
/// bytes.
pub open spec fn argon2_accepts(password_len: nat, salt_len: nat, out_len: nat) -> bool {
    &&& 4 <= out_len <= 0xFFFF_FFFF
    &&& password_len <= 0xFFFF_FFFF
    &&& 8 <= salt_len <= 0xFFFF_FFFF
}

/// The message lengths that ChaCha20-Poly1305 processes: fewer than
/// 2^32 - 1 blocks of 64 bytes.
pub open spec fn aead_fits(len: nat) -> bool {
    len / 64 < 0xFFFF_FFFF
}

/// The bytes of an optional buffer.
pub open spec fn opt_bytes(o: Option<Vec<u8>>) -> Option<Seq<u8>> {
    match o {
        Some(v) => Some(v@),
        None => None,
    }
}

/// Lowercase hexadecimal digit of `n < 16`.
pub open spec fn hex_digit(n: nat) -> char {
    if n < 10 {
        (('0' as u32) + n) as char
    } else {
        (('a' as u32) + (n - 10)) as char
    }
}

/// Lowercase hexadecimal text of `data`, two digits per byte, high nibble
/// first.
pub open spec fn hex_lower(data: Seq<u8>) -> Seq<char>
    decreases data.len(),
{
    if data.len() == 0 {
        Seq::empty()
    } else {
        hex_lower(data.drop_last()).push(hex_digit((data.last() / 16) as nat)).push(
            hex_digit((data.last() % 16) as nat),
        )
    }
}

/// `argon2::Argon2::default().hash_password_into`: hashes `password` with
/// `salt` into a fresh buffer of `key_len` bytes. The crate checks the lengths
/// (output, then password, then salt) and returns its error when one is out of
/// range; otherwise the output is the Argon2id digest, a function of the three
/// arguments.
#[verifier::external_body]
pub(crate) fn argon2id_hash(password: &[u8], salt: &[u8], key_len: usize) -> (res: Result<
    Vec<u8>,
    argon2::Error,
>)
    ensures
        res is Ok <==> argon2_accepts(password@.len(), salt@.len(), key_len as nat),
        res matches Ok(k) ==> k@ == argon2id_digest(password@, salt@, key_len as nat) && k@.len()
            == key_len,
{
    let mut out = vec![0u8; key_len];
    argon2::Argon2::default().hash_password_into(password, salt, &mut out).map(|_| out)
}

/// The text of an `argon2::Error` (its `Display`). Nothing is stated of it.
#[verifier::external_body]
pub(crate) fn argon2_error_text(e: &argon2::Error) -> String {
    e.to_string()
}

/// `XChaCha20Poly1305::encrypt` with the 32-byte `key` and 24-byte `nonce`.
/// It fails only when the message is too long for the cipher; otherwise the
/// result is the ciphertext with the tag appended, 16 bytes longer than the
/// message.
#[verifier::external_body]
pub(crate) fn xchacha_encrypt(key: &[u8], nonce: &[u8], plaintext: &[u8]) -> (res: Option<Vec<u8>>)
    requires
        key@.len() == 32,
        nonce@.len() == 24,
    ensures
        res is Some <==> aead_fits(plaintext@.len()),
        res matches Some(c) ==> c@ == xchacha_sealed(key@, nonce@, plaintext@) && c@.len()
            == plaintext@.len() + 16,
{
    let cipher = chacha20poly1305::XChaCha20Poly1305::new(chacha20poly1305::Key::from_slice(key));
    cipher.encrypt(chacha20poly1305::XNonce::from_slice(nonce), plaintext).ok()
}

/// `XChaCha20Poly1305::decrypt` with the 32-byte `key` and 24-byte `nonce`.
/// Its result is a function of the three arguments. Decryption succeeds
/// exactly on what encryption produces: a plaintext that it returns encrypts
/// back to the ciphertext, and the ciphertext of any message that fits
/// decrypts to that message.
#[verifier::external_body]
pub(crate) fn xchacha_decrypt(key: &[u8], nonce: &[u8], ciphertext: &[u8]) -> (res: Option<Vec<u8>>)
    requires
        key@.len() == 32,
        nonce@.len() == 24,
    ensures
        opt_bytes(res) == xchacha_opened(key@, nonce@, ciphertext@),
        res matches Some(p) ==> ciphertext@ == xchacha_sealed(key@, nonce@, p@) && aead_fits(
            p@.len(),
        ),
        forall|p: Seq<u8>|
            aead_fits(p.len()) && ciphertext@ == #[trigger] xchacha_sealed(key@, nonce@, p)
                ==> opt_bytes(res) == Some(p),
{
    let cipher = chacha20poly1305::XChaCha20Poly1305::new(chacha20poly1305::Key::from_slice(key));
    cipher.decrypt(chacha20poly1305::XNonce::from_slice(nonce), ciphertext).ok()
}

/// `len` bytes from the operating system's random source
/// (`rand::rngs::OsRng::fill_bytes`). Only the length is stated.
#[verifier::external_body]
pub(crate) fn random_bytes(len: usize) -> (res: Vec<u8>)
    ensures
        res@.len() == len,
{
    let mut v = vec![0u8; len];
    rand::rngs::OsRng.fill_bytes(&mut v);
    v
}

/// A uniformly drawn index below `bound`
/// (`rand::rngs::OsRng.gen_range(0..bound)`). Only the range is stated.
#[verifier::external_body]
pub(crate) fn random_below(bound: usize) -> (res: usize)
    requires
        bound > 0,
    ensures
        res < bound,
{
    rand::rngs::OsRng.gen_range(0..bound)
}

/// `sha2::Sha256::digest`: the 32-byte SHA-256 digest of `data`.
#[verifier::external_body]
pub(crate) fn sha256(data: &[u8]) -> (res: Vec<u8>)
    ensures
        res@ == sha256_digest(data@),
        res@.len() == 32,
{
    sha2::Sha256::digest(data).to_vec()
}

/// `hex::encode`: lowercase hexadecimal text of `data`.
#[verifier::external_body]
pub(crate) fn hex_encode(data: &[u8]) -> (res: String)
    ensures
        res@ == hex_lower(data@),
{
    hex::encode(data)
}

} // verus!
