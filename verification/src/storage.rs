//! The encrypted container in which the vault and its snapshots are stored:
//! the key is derived from the master password with Argon2id over a random
//! 16-byte salt, and the serialized content is sealed with
//! XChaCha20-Poly1305 under a random 24-byte nonce.

use vstd::prelude::*;

use crate::crypto::{
    aead_fits, argon2_accepts, argon2id_digest, hex_encode, hex_lower, opt_bytes, random_bytes, sha256,
    sha256_digest, xchacha_decrypt, xchacha_encrypt, xchacha_opened, xchacha_sealed,
};
use crate::text::{concat_str, decimal, decimal_string};
use crate::vault::{derive_key_argon2id, fresh_uuid, now_millis, VaultSnapshot};
use vstd::string::StringSliceAdditionalSpecFns;

verus! {

/// Length of the random salt of a container.
pub const SALT_LEN: usize = 16;

/// Length of the derived key.
pub const KEY_LEN: usize = 32;

/// Length of the XChaCha20 nonce.
pub const NONCE_LEN: usize = 24;

/// An encrypted container as stored on disk.
pub struct EncryptedVault {
    pub salt: Vec<u8>,
    pub nonce: Vec<u8>,
    pub ciphertext: Vec<u8>,
}

/// Why sealing or opening a container failed.
#[derive(Debug)]
pub enum CryptoError {
    /// Argon2 refused the password or salt; the text of its error.
    KeyDerivation(String),
    /// The content is too long to encrypt.
    EncryptionFailed,
    /// The ciphertext does not authenticate under the derived key.
    DecryptionFailed,
}

/// The container key of `password` (its UTF-8 bytes) with `salt`.
pub open spec fn vault_key(password: Seq<u8>, salt: Seq<u8>) -> Seq<u8> {
    argon2id_digest(password, salt, KEY_LEN as nat)
}

/// The ciphertext that sealing `plaintext` with `password`, `salt` and `nonce`
/// produces.
pub open spec fn sealed_bytes(plaintext: Seq<u8>, password: Seq<u8>, salt: Seq<u8>, nonce: Seq<u8>) -> Seq<u8> {
    xchacha_sealed(vault_key(password, salt), nonce, plaintext)
}

/// What opening a container with `password` yields when the key derivation
/// succeeds: the plaintext, or `None` when it does not authenticate.
pub open spec fn opened_bytes(password: Seq<u8>, salt: Seq<u8>, nonce: Seq<u8>, ciphertext: Seq<u8>) -> Option<Seq<u8>> {
    xchacha_opened(vault_key(password, salt), nonce, ciphertext)
}

/// `msg` is a key-derivation error whose text starts as Argon2 errors do.
pub open spec fn is_key_derivation_error(e: CryptoError) -> bool {
    e matches CryptoError::KeyDerivation(msg) && "argon2 error: "@.is_prefix_of(msg@)
}

/// Encrypts `plaintext` with the derived `key` and packs the container.
fn encrypt_with_key(key: &Vec<u8>, salt: Vec<u8>, nonce: Vec<u8>, plaintext: &[u8]) -> (res: Result<
    EncryptedVault,
    CryptoError,
>)
    requires
        key@.len() == KEY_LEN,
        nonce@.len() == NONCE_LEN,
    ensures
        aead_fits(plaintext@.len()) ==> (res matches Ok(ev) && ev.salt@ == salt@ && ev.nonce@
            == nonce@ && ev.ciphertext@ == xchacha_sealed(key@, nonce@, plaintext@)),
        !aead_fits(plaintext@.len()) ==> res matches Err(CryptoError::EncryptionFailed),
{
    match xchacha_encrypt(key.as_slice(), nonce.as_slice(), plaintext) {
        Some(ciphertext) => Ok(EncryptedVault { salt, nonce, ciphertext }),
        None => Err(CryptoError::EncryptionFailed),
    }
}

/// Seals `plaintext` under `password` with the given salt and nonce.
pub fn seal_with(plaintext: &[u8], password: &str, salt: Vec<u8>, nonce: Vec<u8>) -> (res: Result<
    EncryptedVault,
    CryptoError,
>)
    requires
        nonce@.len() == NONCE_LEN,
    ensures
        !argon2_accepts(password.spec_bytes().len(), salt@.len(), KEY_LEN as nat) ==> (res matches Err(
            e,
        ) && is_key_derivation_error(e)),
        argon2_accepts(password.spec_bytes().len(), salt@.len(), KEY_LEN as nat) && !aead_fits(
            plaintext@.len(),
        ) ==> res matches Err(CryptoError::EncryptionFailed),
        argon2_accepts(password.spec_bytes().len(), salt@.len(), KEY_LEN as nat) && aead_fits(
            plaintext@.len(),
        ) ==> (res matches Ok(ev) && ev.salt@ == salt@ && ev.nonce@ == nonce@ && ev.ciphertext@
            == sealed_bytes(plaintext@, password.spec_bytes(), salt@, nonce@)),
{
    match derive_key_argon2id(password, Some(salt.as_slice()), SALT_LEN, KEY_LEN) {
        Ok((key, used_salt)) => encrypt_with_key(&key, used_salt, nonce, plaintext),
        Err(msg) => Err(CryptoError::KeyDerivation(msg)),
    }
}

/// Seals `plaintext` under `password`, with a fresh random salt and nonce.
pub fn seal(plaintext: &[u8], password: &str) -> (res: Result<EncryptedVault, CryptoError>)
    ensures
        sealed_as(plaintext@, password.spec_bytes(), res),
{
    match derive_key_argon2id(password, None, SALT_LEN, KEY_LEN) {
        Ok((key, salt)) => {
            let nonce = random_bytes(NONCE_LEN);
            encrypt_with_key(&key, salt, nonce, plaintext)
        },
        Err(msg) => Err(CryptoError::KeyDerivation(msg)),
    }
}

/// Opens a container with `password`. When the container was sealed from a
/// plaintext with this password, that plaintext is returned.
pub fn open(encrypted: &EncryptedVault, password: &str) -> (res: Result<Vec<u8>, CryptoError>)
    requires
        encrypted.nonce@.len() == NONCE_LEN,
    ensures
        opened_as(*encrypted, password.spec_bytes(), res),
{
    match derive_key_argon2id(password, Some(encrypted.salt.as_slice()), SALT_LEN, KEY_LEN) {
        Ok((key, _)) => {
            let r = xchacha_decrypt(key.as_slice(), encrypted.nonce.as_slice(), encrypted.ciphertext.as_slice());
            proof {
                assert forall|p: Seq<u8>|
                    aead_fits(p.len()) && encrypted.ciphertext@ == #[trigger] sealed_bytes(
                        p,
                        password.spec_bytes(),
                        encrypted.salt@,
                        encrypted.nonce@,
                    ) implies opt_bytes(r) == Some(p) by {
                    assert(sealed_bytes(p, password.spec_bytes(), encrypted.salt@, encrypted.nonce@)
                        == xchacha_sealed(key@, encrypted.nonce@, p));
                }
            }
            match r {
                Some(p) => Ok(p),
                None => Err(CryptoError::DecryptionFailed),
            }
        },
        Err(msg) => Err(CryptoError::KeyDerivation(msg)),
    }
}

/// Hexadecimal text has two digits per byte.
pub proof fn lemma_hex_len(data: Seq<u8>)
    ensures
        hex_lower(data).len() == 2 * data.len(),
    decreases data.len(),
{
    if data.len() > 0 {
        lemma_hex_len(data.drop_last());
    }
}

/// The SHA-256 checksum of `data`, as 64 lowercase hexadecimal digits.
pub fn calculate_sha256(data: &[u8]) -> (res: String)
    ensures
        res@ == hex_lower(sha256_digest(data@)),
        res@.len() == 64,
{
    let digest = sha256(data);
    proof {
        lemma_hex_len(digest@);
    }
    hex_encode(digest.as_slice())
}

/// File name of the snapshot of `version`: `v<version>.blackout.bak`.
pub fn backup_file_name(version: u32) -> (res: String)
    ensures
        res@ == "v"@ + decimal(version as nat) + ".blackout.bak"@,
{
    let digits = decimal_string(version as u64);
    let with_v = concat_str("v", digits.as_str());
    concat_str(with_v.as_str(), ".blackout.bak")
}

/// The record of a snapshot just written: a fresh identifier, the current
/// time, and the given version, checksum, reason and file.
pub fn new_snapshot_record(version: u32, checksum: String, reason: &str, file_ref: String) -> (res:
    VaultSnapshot)
    ensures
        res.version == version,
        res.checksum == checksum,
        res.reason@ == reason@,
        res.file_ref == Some(file_ref),
{
    VaultSnapshot {
        uuid: fresh_uuid(),
        version,
        created_at: now_millis(),
        checksum,
        file_ref: Some(file_ref),
        reason: String::from_str(reason),
    }
}


/// `res` is what sealing `plaintext` under `password` gives: a key
/// derivation error for an over-long password, a refusal for an over-long
/// plaintext, or a container with a fresh salt and nonce whose ciphertext is
/// the plaintext sealed under the derived key.
pub open spec fn sealed_as(plaintext: Seq<u8>, password: Seq<u8>, res: Result<EncryptedVault, CryptoError>) -> bool {
    &&& password.len() > 0xFFFF_FFFF ==> (res matches Err(e) && is_key_derivation_error(e))
    &&& password.len() <= 0xFFFF_FFFF && !aead_fits(plaintext.len()) ==> (res matches Err(
        CryptoError::EncryptionFailed,
    ))
    &&& password.len() <= 0xFFFF_FFFF && aead_fits(plaintext.len()) ==> (res matches Ok(ev) && ev.salt@.len()
        == SALT_LEN && ev.nonce@.len() == NONCE_LEN && ev.ciphertext@ == sealed_bytes(
        plaintext,
        password,
        ev.salt@,
        ev.nonce@,
    ))
}

/// `res` is what opening `encrypted` with `password` gives: a key
/// derivation error when Argon2 refuses the lengths; otherwise the content
/// when the ciphertext authenticates, and in particular the plaintext that
/// was sealed with this password.
pub open spec fn opened_as(encrypted: EncryptedVault, password: Seq<u8>, res: Result<Vec<u8>, CryptoError>) -> bool {
    &&& !argon2_accepts(password.len(), encrypted.salt@.len(), KEY_LEN as nat) ==> (res matches Err(e)
        && is_key_derivation_error(e))
    &&& argon2_accepts(password.len(), encrypted.salt@.len(), KEY_LEN as nat) ==> match res {
        Ok(p) => opened_bytes(password, encrypted.salt@, encrypted.nonce@, encrypted.ciphertext@) == Some(p@)
            && aead_fits(p@.len()),
        Err(e) => e is DecryptionFailed && opened_bytes(
            password,
            encrypted.salt@,
            encrypted.nonce@,
            encrypted.ciphertext@,
        ) is None,
    }
    &&& forall|p: Seq<u8>|
        argon2_accepts(password.len(), encrypted.salt@.len(), KEY_LEN as nat) && aead_fits(p.len())
            && encrypted.ciphertext@ == #[trigger] sealed_bytes(p, password, encrypted.salt@, encrypted.nonce@)
            ==> (res matches Ok(q) && q@ == p)
}

/// A change of master password keeps the vault's content: what opening the
/// container with the current password gives, sealed under the new
/// password, opens with the new password to the same content.
pub proof fn law_password_change_keeps_content(
    e: EncryptedVault,
    current: Seq<u8>,
    new_password: Seq<u8>,
    opened: Result<Vec<u8>, CryptoError>,
    resealed: Result<EncryptedVault, CryptoError>,
    reopened: Result<Vec<u8>, CryptoError>,
)
    requires
        opened_as(e, current, opened),
        opened matches Ok(p) && sealed_as(p@, new_password, resealed),
        resealed matches Ok(f) && opened_as(f, new_password, reopened),
    ensures
        reopened matches Ok(q) && q@ == opened->Ok_0@,
{
    let p = opened->Ok_0@;
    let f = resealed->Ok_0;
    assert(f.ciphertext@ == sealed_bytes(p, new_password, f.salt@, f.nonce@));
}
} // verus!
