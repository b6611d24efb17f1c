//! The symmetric envelope: a key derived from a passphrase and a salt, and
//! authenticated encryption under that key. A sealed message is a fresh
//! twelve-byte nonce followed by the ciphertext and its tag.

use aes_gcm::aead::{Aead, KeyInit};
use aes_gcm::{Aes256Gcm, Nonce};
use rand::rngs::StdRng;
use rand::{Rng, SeedableRng};
use sha2::Sha256;
use vstd::prelude::*;
use vstd::slice::{slice_subrange, slice_to_vec};

verus! {

/// Bytes in a derived key.
pub const KEY_LEN: usize = 32;

/// Bytes in a nonce.
pub const NONCE_LEN: usize = 12;

/// Bytes in a salt that the library makes up.
pub const SALT_LEN: usize = 8;

/// Rounds of the key derivation.
pub const KDF_ROUNDS: u32 = 100;

/// The shortest input that `decrypt` looks into.
pub const MIN_ENVELOPE_LEN: usize = 13;

/// The longest plaintext, in bytes, that the cipher seals.
pub const MAX_PLAINTEXT_LEN: u64 = 0x10_0000_0000;

/// Why a key was not derived, or a message not sealed or opened.
#[derive(Debug, Clone, Copy, PartialEq, Eq, Structural)]
pub enum CryptError {
    /// The passphrase is empty.
    EmptyPassphrase,
    /// The cipher refused the plaintext.
    Seal,
    /// The input is too short for an envelope, or its tag does not verify.
    /// The two are not told apart.
    IncorrectPassphrase,
}

/// What `pbkdf2::pbkdf2_hmac_array::<Sha256, 32>` returns.
pub uninterp spec fn pbkdf2_hmac_sha256(password: Seq<u8>, salt: Seq<u8>, rounds: u32) -> Seq<u8>;

/// What `Aes256Gcm::encrypt` returns for a 32-byte key, a 12-byte nonce and
/// no associated data; `None` stands for its error.
pub uninterp spec fn aes256_gcm_encrypt(
    key: Seq<u8>,
    nonce: Seq<u8>,
    plaintext: Seq<u8>,
) -> Option<Seq<u8>>;

/// What `Aes256Gcm::decrypt` returns for a 32-byte key, a 12-byte nonce and
/// no associated data; `None` stands for its error.
pub uninterp spec fn aes256_gcm_decrypt(
    key: Seq<u8>,
    nonce: Seq<u8>,
    ciphertext: Seq<u8>,
) -> Option<Seq<u8>>;

/// The view of an optional byte vector.
pub open spec fn bytes_view(v: Option<Vec<u8>>) -> Option<Seq<u8>> {
    match v {
        Some(b) => Some(b@),
        None => None,
    }
}

/// `rand::rngs::StdRng`: a random number generator, carried from where it
/// is seeded to where it is drawn from. Nothing is known of its state.
#[verifier::external_type_specification]
#[verifier::external_body]
pub struct ExStdRng(StdRng);

/// `pbkdf2::pbkdf2_hmac_array` with SHA-256 and 32 bytes of output. The
/// result is a function of the three arguments; the call does not fail.
#[verifier::external_body]
fn kdf(passphrase: &[u8], salt: &[u8], rounds: u32) -> (key: [u8; 32])
    ensures
        key@ == pbkdf2_hmac_sha256(passphrase@, salt@, rounds),
{
    pbkdf2::pbkdf2_hmac_array::<Sha256, 32>(passphrase, salt, rounds)
}

/// `Aes256Gcm::new` and `Aead::encrypt`. The cipher refuses a plaintext of
/// more than 2^36 bytes and nothing else. The ciphertext is the plaintext's
/// length plus a 16-byte tag, and decrypting it under the same key and nonce
/// gives the plaintext back. The key and nonce conversions panic on other
/// lengths than 32 and 12.
#[verifier::external_body]
fn aead_seal(key: &[u8], nonce: &[u8], plaintext: &[u8]) -> (sealed: Option<Vec<u8>>)
    requires
        key@.len() == 32,
        nonce@.len() == 12,
    ensures
        bytes_view(sealed) == aes256_gcm_encrypt(key@, nonce@, plaintext@),
        sealed is Some <==> plaintext@.len() <= MAX_PLAINTEXT_LEN,
        sealed matches Some(c) ==> (c@.len() == plaintext@.len() + 16 && aes256_gcm_decrypt(
            key@,
            nonce@,
            c@,
        ) == Some(plaintext@)),
{
    Aes256Gcm::new(key.into()).encrypt(Nonce::from_slice(nonce), plaintext).ok()
}

/// `Aes256Gcm::new` and `Aead::decrypt`. The key and nonce conversions panic
/// on other lengths than 32 and 12.
#[verifier::external_body]
fn aead_open(key: &[u8], nonce: &[u8], ciphertext: &[u8]) -> (opened: Option<Vec<u8>>)
    requires
        key@.len() == 32,
        nonce@.len() == 12,
    ensures
        bytes_view(opened) == aes256_gcm_decrypt(key@, nonce@, ciphertext@),
{
    Aes256Gcm::new(key.into()).decrypt(Nonce::from_slice(nonce), ciphertext).ok()
}

/// `StdRng::from_entropy`: a generator seeded by the operating system.
#[verifier::external_body]
fn entropy_rng() -> (rng: StdRng) {
    StdRng::from_entropy()
}

/// `Rng::gen` for twelve bytes. Nothing is known of them.
#[verifier::external_body]
fn random_nonce(rng: &mut StdRng) -> (iv: [u8; 12]) {
    rng.gen()
}

/// `Rng::gen` for eight bytes. Nothing is known of them.
#[verifier::external_body]
fn random_salt(rng: &mut StdRng) -> (salt: [u8; 8]) {
    rng.gen()
}

/// The key that `passphrase` and `salt` give.
pub open spec fn derived_key(passphrase: Seq<u8>, salt: Seq<u8>) -> Seq<u8> {
    pbkdf2_hmac_sha256(passphrase, salt, KDF_ROUNDS)
}

/// What `new` returns, for a caller's salt or, where that is empty, a salt of
/// eight bytes that the library made up.
pub open spec fn new_ensures(
    passphrase: Seq<u8>,
    usersalt: Seq<u8>,
    r: Result<(Vec<u8>, Vec<u8>), CryptError>,
) -> bool {
    if passphrase.len() == 0 {
        r == Err::<(Vec<u8>, Vec<u8>), CryptError>(CryptError::EmptyPassphrase)
    } else {
        &&& r matches Ok((key, salt))
        &&& key@ == derived_key(passphrase, salt@)
        &&& key@.len() == KEY_LEN
        &&& if usersalt.len() == 0 {
            salt@.len() == SALT_LEN
        } else {
            salt@ == usersalt
        }
    }
}

/// Derives the key for `passphrase` under exactly `salt`.
pub fn new_with_salt(passphrase: &[u8], salt: Vec<u8>) -> (r: Result<
    (Vec<u8>, Vec<u8>),
    CryptError,
>)
    ensures
        passphrase@.len() == 0 ==> r == Err::<(Vec<u8>, Vec<u8>), CryptError>(
            CryptError::EmptyPassphrase,
        ),
        passphrase@.len() != 0 ==> (r matches Ok((key, s)) && s@ == salt@ && key@ == derived_key(
            passphrase@,
            salt@,
        ) && key@.len() == KEY_LEN),
{
    if passphrase.len() == 0 {
        return Err(CryptError::EmptyPassphrase);
    }
    let key: [u8; 32] = kdf(passphrase, salt.as_slice(), KDF_ROUNDS);
    Ok((slice_to_vec(key.as_slice()), salt))
}

/// Derives a key from `passphrase` and `usersalt`, and returns it with the
/// salt used. An empty `usersalt` asks for a random salt of eight bytes.
pub fn new(passphrase: &[u8], usersalt: &[u8]) -> (r: Result<(Vec<u8>, Vec<u8>), CryptError>)
    ensures
        new_ensures(passphrase@, usersalt@, r),
{
    if passphrase.len() == 0 {
        return Err(CryptError::EmptyPassphrase);
    }
    let salt: Vec<u8> = if usersalt.len() == 0 {
        let mut rng = entropy_rng();
        let random: [u8; 8] = random_salt(&mut rng);
        slice_to_vec(random.as_slice())
    } else {
        slice_to_vec(usersalt)
    };
    new_with_salt(passphrase, salt)
}

/// Whether `envelope` is `plaintext` sealed under `key`: its first twelve
/// bytes are a nonce, the rest is what the cipher makes of the plaintext
/// under that nonce, and the cipher opens it again.
pub open spec fn is_envelope(envelope: Seq<u8>, key: Seq<u8>, plaintext: Seq<u8>) -> bool {
    let nonce = envelope.subrange(0, NONCE_LEN as int);
    let body = envelope.subrange(NONCE_LEN as int, envelope.len() as int);
    &&& envelope.len() == plaintext.len() + 28
    &&& aes256_gcm_encrypt(key, nonce, plaintext) == Some(body)
    &&& aes256_gcm_decrypt(key, nonce, body) == Some(plaintext)
}

/// What `decrypt` finds in `envelope` under `key`.
pub open spec fn opened(envelope: Seq<u8>, key: Seq<u8>) -> Option<Seq<u8>> {
    if envelope.len() < MIN_ENVELOPE_LEN {
        None
    } else {
        aes256_gcm_decrypt(
            key,
            envelope.subrange(0, NONCE_LEN as int),
            envelope.subrange(NONCE_LEN as int, envelope.len() as int),
        )
    }
}

/// Seals `plaintext` under `key` with the nonce given.
pub fn encrypt_with_nonce(plaintext: &[u8], key: &[u8], nonce: &[u8]) -> (r: Result<
    Vec<u8>,
    CryptError,
>)
    requires
        key@.len() == KEY_LEN,
        nonce@.len() == NONCE_LEN,
    ensures
        r is Ok <==> plaintext@.len() <= MAX_PLAINTEXT_LEN,
        r matches Ok(envelope) ==> (envelope@.subrange(0, NONCE_LEN as int) == nonce@
            && is_envelope(envelope@, key@, plaintext@)),
        r matches Err(e) ==> e == CryptError::Seal,
{
    match aead_seal(key, nonce, plaintext) {
        Some(body) => {
            let mut envelope: Vec<u8> = slice_to_vec(nonce);
            envelope.extend_from_slice(body.as_slice());
            assert(envelope@.subrange(0, NONCE_LEN as int) =~= nonce@);
            assert(envelope@.subrange(NONCE_LEN as int, envelope@.len() as int) =~= body@);
            Ok(envelope)
        },
        None => Err(CryptError::Seal),
    }
}

/// Seals `plaintext` under `key` with a fresh random nonce.
pub fn encrypt(plaintext: &[u8], key: &[u8]) -> (r: Result<Vec<u8>, CryptError>)
    requires
        key@.len() == KEY_LEN,
    ensures
        r is Ok <==> plaintext@.len() <= MAX_PLAINTEXT_LEN,
        r matches Ok(envelope) ==> is_envelope(envelope@, key@, plaintext@),
        r matches Err(e) ==> e == CryptError::Seal,
{
    let mut rng = entropy_rng();
    let iv: [u8; 12] = random_nonce(&mut rng);
    encrypt_with_nonce(plaintext, key, iv.as_slice())
}

/// Opens an envelope under `key`. An input of fewer than thirteen bytes and
/// one whose tag does not verify are refused alike.
pub fn decrypt(encrypted: &[u8], key: &[u8]) -> (r: Result<Vec<u8>, CryptError>)
    requires
        key@.len() == KEY_LEN,
    ensures
        match opened(encrypted@, key@) {
            Some(plaintext) => r matches Ok(p) && p@ == plaintext,
            None => r == Err::<Vec<u8>, CryptError>(CryptError::IncorrectPassphrase),
        },
{
    if encrypted.len() < MIN_ENVELOPE_LEN {
        return Err(CryptError::IncorrectPassphrase);
    }
    let left = slice_subrange(encrypted, 0, NONCE_LEN);
    let right = slice_subrange(encrypted, NONCE_LEN, encrypted.len());
    match aead_open(key, left, right) {
        Some(plaintext) => Ok(plaintext),
        None => Err(CryptError::IncorrectPassphrase),
    }
}

/// Opening undoes sealing: whatever `encrypt` returned for `plaintext` under
/// `key`, `decrypt` finds `plaintext` in it under the same key.
pub proof fn lemma_open_inverts_seal(plaintext: Seq<u8>, key: Seq<u8>, envelope: Seq<u8>)
    requires
        is_envelope(envelope, key, plaintext),
    ensures
        opened(envelope, key) == Some(plaintext),
{
}

/// Key derivation is a function of the passphrase and the salt: two results
/// of `new` for the same passphrase and the same salt, not empty, are the
/// same key and the same salt.
pub proof fn lemma_derivation_is_deterministic(
    passphrase: Seq<u8>,
    salt: Seq<u8>,
    first: Result<(Vec<u8>, Vec<u8>), CryptError>,
    second: Result<(Vec<u8>, Vec<u8>), CryptError>,
)
    requires
        salt.len() > 0,
        new_ensures(passphrase, salt, first),
        new_ensures(passphrase, salt, second),
    ensures
        first is Ok <==> second is Ok,
        first is Ok ==> first->Ok_0.0@ == second->Ok_0.0@ && first->Ok_0.1@ == second->Ok_0.1@,
        first is Err ==> first == second,
{
}

} // verus!
