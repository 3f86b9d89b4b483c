//! Envelope encryption of secrets: AES-256-GCM under a key that PBKDF2-HMAC-SHA256
//! derives from a passphrase (100,000 iterations, 16-byte salt, 12-byte IV),
//! with every binary field in base64.

use vstd::prelude::*;
use vstd::string::StringExecFns;
use vstd::utf8::{decode_utf8, encode_utf8, valid_utf8};
use crate::error::KnishIOError;
use crate::storage::secure_memory::zeroize_key;
use crate::storage::{EncryptedSecretPayload, SecretStorageMetadata};

verus! {

/// The PBKDF2 iteration count of new envelopes.
pub const DEFAULT_ITERATIONS: u32 = 100_000;

/// The length of the key-derivation salt, in bytes.
pub const SALT_LENGTH: usize = 16;

/// The length of the AES-GCM initialisation vector, in bytes.
pub const IV_LENGTH: usize = 12;

/// The longest plaintext that AES-GCM encrypts, in bytes (`P_MAX` of the
/// aes-gcm crate, 2^36).
pub const AES_GCM_P_MAX: u64 = 68_719_476_736;

/// The key of 32 bytes that PBKDF2-HMAC-SHA256 derives from a passphrase (its
/// UTF-8 bytes), a salt and an iteration count.
pub uninterp spec fn pbkdf2_sha256_key(passphrase: Seq<char>, salt: Seq<u8>, iterations: u32) -> Seq<u8>;

/// The standard base64 text (with padding) of bytes.
pub uninterp spec fn base64_text(bytes: Seq<u8>) -> Seq<char>;

/// The bytes that a standard base64 text stands for, when it is valid.
pub uninterp spec fn base64_bytes(text: Seq<char>) -> Option<Seq<u8>>;

/// The AES-256-GCM ciphertext (with its tag) of a plaintext under a key and a
/// nonce, when the cipher accepts the plaintext.
pub uninterp spec fn aes_gcm_sealed(key: Seq<u8>, nonce: Seq<u8>, plaintext: Seq<u8>) -> Option<Seq<u8>>;

/// The plaintext of an AES-256-GCM ciphertext under a key and a nonce, when the
/// tag authenticates it.
pub uninterp spec fn aes_gcm_opened(key: Seq<u8>, nonce: Seq<u8>, ciphertext: Seq<u8>) -> Option<Seq<u8>>;

/// `pbkdf2::pbkdf2_hmac::<sha2::Sha256>` into a buffer of 32 bytes: the derived
/// key, a function of the passphrase, the salt and the iteration count. The
/// crate's `expect` inside cannot fire, since HMAC takes keys of any length.
#[verifier::external_body]
fn pbkdf2_hmac_sha256(passphrase: &str, salt: &[u8], iterations: u32) -> (key: [u8; 32])
    ensures
        key@ == pbkdf2_sha256_key(passphrase@, salt@, iterations),
{
    let mut key = [0u8; 32];
    pbkdf2::pbkdf2_hmac::<sha2::Sha256>(passphrase.as_bytes(), salt, iterations, &mut key);
    key
}

/// `RngCore::fill_bytes` on `rand::rng()`, the thread-local generator of the
/// rand crate: `n` bytes of chance, of which nothing but their number is known.
#[verifier::external_body]
fn random_bytes(n: usize) -> (r: Vec<u8>)
    ensures
        r@.len() == n,
{
    let mut buf = vec![0u8; n];
    rand::RngCore::fill_bytes(&mut rand::rng(), &mut buf);
    buf
}

/// `Engine::encode` of the base64 crate's standard engine: the padded base64
/// text of the bytes, which that engine decodes back to them.
#[verifier::external_body]
fn base64_encode(bytes: &[u8]) -> (r: String)
    ensures
        r@ == base64_text(bytes@),
        base64_bytes(r@) == Some(bytes@),
{
    base64::Engine::encode(&base64::engine::general_purpose::STANDARD, bytes)
}

/// `Engine::decode` of the base64 crate's standard engine: the bytes of a valid
/// text, else the decoding error as text.
#[verifier::external_body]
fn base64_decode(text: &str) -> (r: Result<Vec<u8>, String>)
    ensures
        match r {
            Ok(b) => base64_bytes(text@) == Some(b@),
            Err(_) => base64_bytes(text@) is None,
        },
{
    match base64::Engine::decode(&base64::engine::general_purpose::STANDARD, text) {
        Ok(b) => Ok(b),
        Err(e) => Err(e.to_string()),
    }
}

/// `Aead::encrypt` of the aes-gcm crate's `Aes256Gcm`, built from the key by
/// `KeyInit::new_from_slice`: the ciphertext with its tag, which decryption under
/// the same key and nonce turns back into the plaintext; else the error as text.
/// With a key of 32 bytes, a nonce of 12 and no associated data, the crate's
/// only failure is a plaintext longer than `P_MAX`.
#[verifier::external_body]
fn aes256_gcm_encrypt(key: &[u8], nonce: &[u8], plaintext: &[u8]) -> (r: Result<Vec<u8>, String>)
    requires
        key@.len() == 32,
        nonce@.len() == 12,
    ensures
        r is Ok <==> plaintext@.len() <= AES_GCM_P_MAX,
        match r {
            Ok(c) => aes_gcm_sealed(key@, nonce@, plaintext@) == Some(c@)
                && aes_gcm_opened(key@, nonce@, c@) == Some(plaintext@),
            Err(_) => aes_gcm_sealed(key@, nonce@, plaintext@) is None,
        },
{
    let cipher = match <aes_gcm::Aes256Gcm as aes_gcm::KeyInit>::new_from_slice(key) {
        Ok(c) => c,
        Err(e) => return Err(e.to_string()),
    };
    match aes_gcm::aead::Aead::encrypt(&cipher, aes_gcm::Nonce::from_slice(nonce), plaintext) {
        Ok(c) => Ok(c),
        Err(e) => Err(e.to_string()),
    }
}

/// `Aead::decrypt` of the aes-gcm crate's `Aes256Gcm`, built from the key by
/// `KeyInit::new_from_slice`: the plaintext when the tag authenticates the
/// ciphertext, else the error as text.
#[verifier::external_body]
fn aes256_gcm_decrypt(key: &[u8], nonce: &[u8], ciphertext: &[u8]) -> (r: Result<Vec<u8>, String>)
    requires
        key@.len() == 32,
        nonce@.len() == 12,
    ensures
        match r {
            Ok(p) => aes_gcm_opened(key@, nonce@, ciphertext@) == Some(p@),
            Err(_) => aes_gcm_opened(key@, nonce@, ciphertext@) is None,
        },
{
    let cipher = match <aes_gcm::Aes256Gcm as aes_gcm::KeyInit>::new_from_slice(key) {
        Ok(c) => c,
        Err(e) => return Err(e.to_string()),
    };
    match aes_gcm::aead::Aead::decrypt(&cipher, aes_gcm::Nonce::from_slice(nonce), ciphertext) {
        Ok(p) => Ok(p),
        Err(e) => Err(e.to_string()),
    }
}

/// `std::str::from_utf8`: the text that bytes encode when they are valid UTF-8,
/// else the error as text.
#[verifier::external_body]
pub(crate) fn utf8_text(bytes: &[u8]) -> (r: Result<String, String>)
    ensures
        match r {
            Ok(s) => valid_utf8(bytes@) && s@ == decode_utf8(bytes@),
            Err(_) => !valid_utf8(bytes@),
        },
{
    match std::str::from_utf8(bytes) {
        Ok(s) => Ok(s.to_owned()),
        Err(e) => Err(e.to_string()),
    }
}

/// The key derived from a passphrase and a salt by PBKDF2-HMAC-SHA256.
pub fn derive_key(passphrase: &str, salt: &[u8], iterations: u32) -> (key: [u8; 32])
    ensures
        key@ == pbkdf2_sha256_key(passphrase@, salt@, iterations),
{
    pbkdf2_hmac_sha256(passphrase, salt, iterations)
}

/// Why an envelope does not open.
#[derive(Debug)]
pub enum OpenFailure {
    /// The salt is not base64
    Salt,
    /// The initialisation vector is not base64
    Iv,
    /// The ciphertext is not base64
    Ciphertext,
    /// The initialisation vector is not of 12 bytes
    IvLength,
    /// The tag does not authenticate the ciphertext
    Authentication,
}

/// The start of the message of each failure to open an envelope.
pub open spec fn failure_prefix(f: OpenFailure) -> Seq<char> {
    match f {
        OpenFailure::Salt => "Invalid salt base64: "@,
        OpenFailure::Iv => "Invalid IV base64: "@,
        OpenFailure::Ciphertext => "Invalid ciphertext base64: "@,
        OpenFailure::IvLength => "Invalid IV length: "@,
        OpenFailure::Authentication => "Decryption authentication failed: "@,
    }
}

/// A text starts with a prefix.
pub open spec fn starts_with(s: Seq<char>, prefix: Seq<char>) -> bool {
    prefix.len() <= s.len() && s.take(prefix.len() as int) == prefix
}

/// What an envelope opens to under a passphrase: the decoded salt, IV and
/// ciphertext, the IV of 12 bytes, and the plaintext under the derived key.
pub open spec fn opened_envelope(
    ciphertext: Seq<char>,
    iv: Seq<char>,
    salt: Seq<char>,
    iterations: u32,
    passphrase: Seq<char>,
) -> Result<Seq<u8>, OpenFailure> {
    match base64_bytes(salt) {
        None => Err(OpenFailure::Salt),
        Some(s) => match base64_bytes(iv) {
            None => Err(OpenFailure::Iv),
            Some(n) => match base64_bytes(ciphertext) {
                None => Err(OpenFailure::Ciphertext),
                Some(c) => if n.len() != 12 {
                    Err(OpenFailure::IvLength)
                } else {
                    match aes_gcm_opened(pbkdf2_sha256_key(passphrase, s, iterations), n, c) {
                        Some(p) => Ok(p),
                        None => Err(OpenFailure::Authentication),
                    }
                },
            },
        },
    }
}

/// A message: a prefix, then the text of an outside error.
pub(crate) fn message(prefix: &str, detail: String) -> (m: String)
    ensures
        starts_with(m@, prefix@),
{
    let m = prefix.to_owned().concat(detail.as_str());
    assert(m@.take(prefix@.len() as int) =~= prefix@);
    m
}

/// Seal a secret under a passphrase: a fresh random salt and IV, the key derived
/// with the default iteration count, and the base64 of each binary part. The
/// envelope opens under the same passphrase to the secret's UTF-8 bytes. It
/// fails only for a secret of more than 2^36 bytes, which AES-GCM refuses.
pub fn seal(secret: &str, passphrase: &str, metadata: SecretStorageMetadata) -> (r: Result<
    EncryptedSecretPayload,
    KnishIOError,
>)
    ensures
        match r {
            Ok(p) => {
                &&& p.version == 1
                &&& p.algorithm@ == "AES-GCM"@
                &&& p.iterations == DEFAULT_ITERATIONS
                &&& p.metadata == metadata
                &&& opened_envelope(p.ciphertext@, p.iv@, p.salt@, p.iterations, passphrase@) == Ok::<
                    Seq<u8>,
                    OpenFailure,
                >(encode_utf8(secret@))
                &&& exists|salt: Seq<u8>, iv: Seq<u8>, c: Seq<u8>|
                    {
                        &&& salt.len() == SALT_LENGTH
                        &&& iv.len() == IV_LENGTH
                        &&& p.salt@ == base64_text(salt)
                        &&& p.iv@ == base64_text(iv)
                        &&& p.ciphertext@ == base64_text(c)
                        &&& aes_gcm_sealed(pbkdf2_sha256_key(passphrase@, salt, DEFAULT_ITERATIONS), iv, encode_utf8(secret@))
                            == Some(c)
                    }
            },
            Err(e) => e matches KnishIOError::SecretStorage(m) && starts_with(m@, "Encryption failed: "@),
        },
        r is Ok <==> encode_utf8(secret@).len() <= AES_GCM_P_MAX,
{
    let salt = random_bytes(SALT_LENGTH);
    let iv = random_bytes(IV_LENGTH);
    let mut key = derive_key(passphrase, salt.as_slice(), DEFAULT_ITERATIONS);
    let ghost k = key@;
    let sealed = aes256_gcm_encrypt(key.as_slice(), iv.as_slice(), secret.as_bytes());
    zeroize_key(&mut key);
    let ciphertext = match sealed {
        Ok(c) => c,
        Err(e) => {
            return Err(KnishIOError::SecretStorage(message("Encryption failed: ", e)));
        },
    };
    let c = base64_encode(ciphertext.as_slice());
    let n = base64_encode(iv.as_slice());
    let s = base64_encode(salt.as_slice());
    assert(k == pbkdf2_sha256_key(passphrase@, salt@, DEFAULT_ITERATIONS));
    Ok(EncryptedSecretPayload {
        version: 1,
        ciphertext: c,
        iv: n,
        salt: s,
        algorithm: "AES-GCM".to_owned(),
        iterations: DEFAULT_ITERATIONS,
        metadata,
    })
}

/// Open an envelope under a passphrase: the plaintext bytes, or the failure
/// that `opened_envelope` names, reported with its message prefix.
pub fn open(payload: &EncryptedSecretPayload, passphrase: &str) -> (r: Result<Vec<u8>, KnishIOError>)
    ensures
        match r {
            Ok(b) => opened_envelope(payload.ciphertext@, payload.iv@, payload.salt@, payload.iterations, passphrase@)
                == Ok::<Seq<u8>, OpenFailure>(b@),
            Err(e) => opened_envelope(payload.ciphertext@, payload.iv@, payload.salt@, payload.iterations, passphrase@)
                matches Err(f) && e matches KnishIOError::DecryptionFailed(m) && starts_with(m@, failure_prefix(f)),
        },
{
    let salt = match base64_decode(payload.salt.as_str()) {
        Ok(b) => b,
        Err(e) => {
            return Err(KnishIOError::DecryptionFailed(message("Invalid salt base64: ", e)));
        },
    };
    let iv = match base64_decode(payload.iv.as_str()) {
        Ok(b) => b,
        Err(e) => {
            return Err(KnishIOError::DecryptionFailed(message("Invalid IV base64: ", e)));
        },
    };
    let ciphertext = match base64_decode(payload.ciphertext.as_str()) {
        Ok(b) => b,
        Err(e) => {
            return Err(KnishIOError::DecryptionFailed(message("Invalid ciphertext base64: ", e)));
        },
    };
    if iv.len() != IV_LENGTH {
        return Err(KnishIOError::DecryptionFailed(
            message("Invalid IV length: ", "could not convert slice to array".to_owned()),
        ));
    }
    let mut key = derive_key(passphrase, salt.as_slice(), payload.iterations);
    let opened = aes256_gcm_decrypt(key.as_slice(), iv.as_slice(), ciphertext.as_slice());
    zeroize_key(&mut key);
    match opened {
        Ok(p) => Ok(p),
        Err(e) => Err(KnishIOError::DecryptionFailed(message("Decryption authentication failed: ", e))),
    }
}

} // verus!
