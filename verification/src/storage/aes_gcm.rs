//! A software secret storage provider that encrypts with AES-256-GCM under a
//! key derived from a passphrase by PBKDF2-HMAC-SHA256; never hardware-backed.

use vstd::prelude::*;
use vstd::string::StringExecFns;
use crate::error::KnishIOError;
use crate::storage::{StorageBackend, MemoryStorageBackend};
use crate::clock::current_time_millis;
use crate::storage::envelope::{
    AES_GCM_P_MAX, DEFAULT_ITERATIONS, OpenFailure, derive_key, message, open, opened_envelope, pbkdf2_sha256_key, seal, starts_with,
    utf8_text,
};
use crate::storage::secure_memory::with_secure_bytes;
use crate::storage::{EncryptedSecretPayload, SecretStorageMetadata, StorageOptions};
use crate::text::{opt_view, strings_view};
use crate::storage::pair_entries;
use crate::keyed::{keyed, distinct_keys, lemma_keyed_push, lemma_distinct_push};
use vstd::utf8::{decode_utf8, encode_utf8, valid_utf8};

verus! {

/// The passphrase an operation uses: the one it names, else the default.
pub open spec fn chosen_passphrase(named: Option<String>, default: Option<String>) -> Option<String> {
    match named {
        Some(p) => Some(p),
        None => default,
    }
}

/// What a sealed secret opens to under a passphrase: the text that the
/// envelope's bytes encode, when they are valid UTF-8.
pub open spec fn opened_secret(
    ciphertext: Seq<char>,
    iv: Seq<char>,
    salt: Seq<char>,
    iterations: u32,
    passphrase: Seq<char>,
) -> Result<Seq<char>, OpenFailure> {
    match opened_envelope(ciphertext, iv, salt, iterations, passphrase) {
        Ok(b) => if valid_utf8(b) {
            Ok(decode_utf8(b))
        } else {
            Err(OpenFailure::Authentication)
        },
        Err(f) => Err(f),
    }
}

/// The text of decrypted secret bytes, which must be valid UTF-8.
fn secret_text(bytes: &[u8]) -> (r: Result<String, KnishIOError>)
    ensures
        match r {
            Ok(s) => valid_utf8(bytes@) && s@ == decode_utf8(bytes@),
            Err(e) => !valid_utf8(bytes@) && e matches KnishIOError::DecryptionFailed(_),
        },
{
    match utf8_text(bytes) {
        Ok(s) => Ok(s),
        Err(e) => Err(KnishIOError::DecryptionFailed(message("Invalid UTF-8 plaintext: ", e))),
    }
}

/// The prefix of the backend keys under which this provider stores secrets.
pub open spec fn secret_key_prefix() -> Seq<char> {
    "knishio:secret:"@
}

/// The backend keys under which this provider keeps its secrets.
pub open spec fn secret_keys() -> Set<Seq<char>> {
    Set::new(|k: Seq<char>| starts_with(k, secret_key_prefix()))
}

/// Whether `s` begins with `prefix`.
fn has_prefix(s: &str, prefix: &str) -> (r: bool)
    ensures
        r == starts_with(s@, prefix@),
{
    let cs = crate::response::chars_of(s);
    let ps = crate::response::chars_of(prefix);
    if ps.len() > cs.len() {
        return false;
    }
    let mut i: usize = 0;
    while i < ps.len()
        invariant
            i <= ps@.len() <= cs@.len(),
            cs@ == s@,
            ps@ == prefix@,
            forall|k: int| 0 <= k < i ==> cs@[k] == ps@[k],
        decreases ps@.len() - i,
    {
        if cs[i] != ps[i] {
            assert(s@.take(prefix@.len() as int)[i as int] != prefix@[i as int]);
            return false;
        }
        i = i + 1;
    }
    assert(s@.take(prefix@.len() as int) =~= prefix@);
    true
}

/// A provider that keeps encrypted secrets in a key-value backend.
#[derive(Debug)]
pub struct AesGcmSecretStorageProvider<B: StorageBackend> {
    backend: B,
    default_passphrase: Option<String>,
}

impl<B: StorageBackend> AesGcmSecretStorageProvider<B> {
    /// A provider over `backend`, using `default_passphrase` when an operation names none.
    pub fn new(backend: B, default_passphrase: Option<String>) -> (r: Self)
        ensures
            r.backend() == backend,
            r.default_passphrase() == default_passphrase,
    {
        AesGcmSecretStorageProvider { backend, default_passphrase }
    }

    /// The backend the provider stores in.
    pub closed spec fn backend(&self) -> B {
        self.backend
    }

    /// The passphrase used when an operation names none.
    pub closed spec fn default_passphrase(&self) -> Option<String> {
        self.default_passphrase
    }

    /// The key of 32 bytes derived from `passphrase` and `salt` by
    /// PBKDF2-HMAC-SHA256 with `iterations` rounds.
    pub fn derive_key(passphrase: &str, salt: &[u8], iterations: u32) -> (key: [u8; 32])
        ensures
            key@ == pbkdf2_sha256_key(passphrase@, salt@, iterations),
    {
        derive_key(passphrase, salt, iterations)
    }

    /// The backend key under which the secret of `bundle_hash` is stored.
    pub fn storage_key(bundle_hash: &str) -> (r: String)
        ensures
            r@ == secret_key_prefix() + bundle_hash@,
    {
        "knishio:secret:".to_owned().concat(bundle_hash)
    }

    /// The kind of this provider: `aes-gcm`.
    pub fn provider_type(&self) -> (r: &'static str)
        ensures
            r@ == "aes-gcm"@,
    {
        "aes-gcm"
    }

    /// Whether the secrets are held by hardware: never for this provider.
    pub fn is_hardware_backed(&self) -> (r: bool)
        ensures
            !r,
    {
        false
    }

    /// Whether the provider can be used here: always.
    pub fn is_available(&self) -> (r: bool)
        ensures
            r,
    {
        true
    }

    /// The passphrase of an operation: the one in `options`, else the default.
    pub fn passphrase_for<'a>(&'a self, options: &'a crate::storage::StorageOptions) -> (r: Option<&'a String>)
        ensures
            match options.passphrase {
                Some(p) => r == Some(&p),
                None => match self.default_passphrase() {
                    Some(d) => r == Some(&d),
                    None => r is None,
                },
            },
    {
        match &options.passphrase {
            Some(p) => Some(p),
            None => match &self.default_passphrase {
                Some(d) => Some(d),
                None => None,
            },
        }
    }

    /// The first step of storing a secret: check the bundle hash and the
    /// secret, pick the passphrase, and seal the secret with metadata of now.
    /// What this gives opens under the same passphrase to the secret itself.
    pub fn seal_secret(&self, bundle_hash: &str, secret: &str, options: &StorageOptions) -> (r: Result<
        EncryptedSecretPayload,
        KnishIOError,
    >)
        ensures
            bundle_hash@.len() == 0 ==> (r matches Err(KnishIOError::SecretStorage(m))
                && m@ == "Bundle hash cannot be empty"@),
            bundle_hash@.len() != 0 && secret@.len() == 0 ==> (r matches Err(KnishIOError::SecretStorage(m))
                && m@ == "Secret cannot be empty"@),
            bundle_hash@.len() != 0 && secret@.len() != 0 && chosen_passphrase(options.passphrase, self.default_passphrase())
                is None ==> (r matches Err(KnishIOError::SecretStorage(m))
                && m@ == "Passphrase required for envelope encryption"@),
            r matches Ok(p) ==> {
                &&& bundle_hash@.len() != 0 && secret@.len() != 0
                &&& chosen_passphrase(options.passphrase, self.default_passphrase()) matches Some(pass)
                &&& opened_secret(p.ciphertext@, p.iv@, p.salt@, p.iterations, pass@) == Ok::<Seq<char>, OpenFailure>(secret@)
                &&& p.metadata.bundle_hash@ == bundle_hash@
                &&& opt_view(p.metadata.label) == opt_view(options.label)
                &&& !p.metadata.hardware_backed
                &&& p.metadata.provider_type@ == "aes-gcm"@
                &&& p.version == 1 && p.algorithm@ == "AES-GCM"@ && p.iterations == DEFAULT_ITERATIONS
            },
            bundle_hash@.len() != 0 && secret@.len() != 0 && chosen_passphrase(options.passphrase, self.default_passphrase())
                is Some ==> (r matches Err(KnishIOError::SecretStorage(m)) ==> starts_with(m@, "Encryption failed: "@)),
            bundle_hash@.len() != 0 && secret@.len() != 0 && chosen_passphrase(options.passphrase, self.default_passphrase())
                is Some ==> (r is Ok <==> encode_utf8(secret@).len() <= AES_GCM_P_MAX),
            r is Err ==> r matches Err(KnishIOError::SecretStorage(_)),
    {
        if bundle_hash.is_empty() {
            return Err(KnishIOError::SecretStorage("Bundle hash cannot be empty".to_owned()));
        }
        if secret.is_empty() {
            return Err(KnishIOError::SecretStorage("Secret cannot be empty".to_owned()));
        }
        let passphrase = match self.passphrase_for(options) {
            Some(p) => p,
            None => {
                return Err(KnishIOError::SecretStorage("Passphrase required for envelope encryption".to_owned()));
            },
        };
        let metadata = SecretStorageMetadata {
            bundle_hash: bundle_hash.to_owned(),
            label: match &options.label {
                Some(l) => Some(l.clone()),
                None => None,
            },
            created_at: current_time_millis(),
            hardware_backed: false,
            provider_type: "aes-gcm".to_owned(),
        };
        let r = seal(secret, passphrase.as_str(), metadata);
        proof {
            broadcast use vstd::utf8::encode_utf8_valid_utf8, vstd::utf8::encode_utf8_decode_utf8;
            assert(valid_utf8(encode_utf8(secret@)));
            assert(decode_utf8(encode_utf8(secret@)) == secret@);
        }
        r
    }

    /// Keep the text of a sealed secret in the backend, under the key of its
    /// bundle hash.
    pub fn store_sealed(&mut self, bundle_hash: &str, payload_text: String)
        ensures
            final(self).backend().items() == old(self).backend().items().insert(
                secret_key_prefix() + bundle_hash@,
                payload_text@,
            ),
            final(self).default_passphrase() == old(self).default_passphrase(),
    {
        let key = Self::storage_key(bundle_hash);
        self.backend.set_item(key.as_str(), payload_text);
    }

    /// The text of the sealed secret kept for a bundle hash, if any.
    pub fn sealed_text(&self, bundle_hash: &str) -> (r: Option<String>)
        ensures
            match r {
                Some(t) => self.backend().items().dom().contains(secret_key_prefix() + bundle_hash@)
                    && self.backend().items()[secret_key_prefix() + bundle_hash@] == t@,
                None => !self.backend().items().dom().contains(secret_key_prefix() + bundle_hash@),
            },
    {
        let key = Self::storage_key(bundle_hash);
        self.backend.get_item(key.as_str())
    }

    /// The last step of retrieving a secret: pick the passphrase, open the
    /// envelope, and read its bytes as UTF-8 text, wiping them afterwards.
    pub fn open_secret(&self, payload: &EncryptedSecretPayload, options: &StorageOptions) -> (r: Result<
        String,
        KnishIOError,
    >)
        ensures
            match chosen_passphrase(options.passphrase, self.default_passphrase()) {
                None => r matches Err(KnishIOError::SecretStorage(m))
                    && m@ == "Passphrase required for secret decryption"@,
                Some(pass) => match opened_secret(payload.ciphertext@, payload.iv@, payload.salt@, payload.iterations, pass@) {
                    Ok(s) => r matches Ok(t) && t@ == s,
                    Err(_) => r matches Err(KnishIOError::DecryptionFailed(_)),
                },
            },
    {
        let passphrase = match self.passphrase_for(options) {
            Some(p) => p,
            None => {
                return Err(KnishIOError::SecretStorage("Passphrase required for secret decryption".to_owned()));
            },
        };
        let bytes = open(payload, passphrase.as_str())?;
        let ghost b = bytes@;
        with_secure_bytes(bytes, secret_text)
    }

    /// The sealed secrets kept in the backend: every key under this
    /// provider's prefix, once, with the text stored under it.
    pub fn sealed_entries(&self) -> (r: Vec<(String, String)>)
        ensures
            distinct_keys(pair_entries(r@)),
            keyed(pair_entries(r@)) == self.backend().items().restrict(secret_keys()),
    {
        let keys = self.backend.keys();
        let ghost items = self.backend().items();
        let ghost ks = strings_view(keys@);
        let mut r: Vec<(String, String)> = Vec::new();
        let mut i: usize = 0;
        while i < keys.len()
            invariant
                i <= keys@.len(),
                ks == strings_view(keys@),
                items == self.backend().items(),
                ks.no_duplicates(),
                ks.to_set() == items.dom(),
                distinct_keys(pair_entries(r@)),
                forall|m: int| #![trigger r@[m]] 0 <= m < r@.len() ==> exists|j: int| 0 <= j < i && #[trigger] ks[j] == r@[m].0@,
                keyed(pair_entries(r@)) == items.restrict(secret_keys().intersect(ks.take(i as int).to_set())),
            decreases keys@.len() - i,
        {
            let ghost old_r = pair_entries(r@);
            assert(ks.take(i + 1).to_set() =~= ks.take(i as int).to_set().insert(ks[i as int])) by {
                assert(ks.take(i + 1) =~= ks.take(i as int).push(ks[i as int]));
                ks.take(i as int).lemma_push_to_set_commute(ks[i as int]);
            }
            if has_prefix(keys[i].as_str(), "knishio:secret:") {
                assert(ks.contains(ks[i as int]));
                match self.backend.get_item(keys[i].as_str()) {
                    Some(text) => {
                        let ghost k = ks[i as int];
                        let ghost v = text@;
                        proof {
                            assert forall|m: int| 0 <= m < old_r.len() implies #[trigger] old_r[m].0 != k by {
                                let j = choose|j: int| 0 <= j < i && #[trigger] ks[j] == r@[m].0@;
                                assert(ks[j] != ks[i as int]);
                            }
                            lemma_keyed_push(old_r, k, v);
                            lemma_distinct_push(old_r, k, v);
                        }
                        r.push((keys[i].clone(), text));
                        assert(pair_entries(r@) =~= old_r.push((k, v)));
                        assert(keyed(pair_entries(r@)) =~= items.restrict(
                            secret_keys().intersect(ks.take(i + 1).to_set()),
                        ));
                        assert forall|m: int| #![trigger r@[m]] 0 <= m < r@.len() implies exists|j: int|
                            0 <= j < i + 1 && #[trigger] ks[j] == r@[m].0@ by {
                            if m < r@.len() - 1 {
                                let j = choose|j: int| 0 <= j < i && #[trigger] ks[j] == old_r[m].0;
                                assert(ks[j] == r@[m].0@);
                            } else {
                                assert(ks[i as int] == r@[m].0@);
                            }
                        }
                    },
                    None => {},
                }
            } else {
                assert(items.restrict(secret_keys().intersect(ks.take(i + 1).to_set())) =~= items.restrict(
                    secret_keys().intersect(ks.take(i as int).to_set()),
                ));
            }
            i = i + 1;
        }
        assert(ks.take(keys@.len() as int) =~= ks);
        assert(items.restrict(secret_keys().intersect(ks.to_set())) =~= items.restrict(secret_keys()));
        r
    }

    /// Whether an encrypted secret is stored for `bundle_hash`.
    pub fn has_secret(&self, bundle_hash: &str) -> (r: Result<bool, KnishIOError>)
        ensures
            r == Ok::<bool, KnishIOError>(self.backend().items().dom().contains(secret_key_prefix() + bundle_hash@)),
    {
        let key = Self::storage_key(bundle_hash);
        Ok(self.backend.get_item(key.as_str()).is_some())
    }

    /// Remove the encrypted secret of `bundle_hash`; whether there was one.
    pub fn delete_secret(&mut self, bundle_hash: &str) -> (r: Result<bool, KnishIOError>)
        ensures
            r == Ok::<bool, KnishIOError>(old(self).backend().items().dom().contains(secret_key_prefix() + bundle_hash@)),
            final(self).backend().items() == old(self).backend().items().remove(secret_key_prefix() + bundle_hash@),
            final(self).default_passphrase() == old(self).default_passphrase(),
    {
        let key = Self::storage_key(bundle_hash);
        let removed = self.backend.remove_item(key.as_str());
        Ok(removed)
    }
}

impl Default for AesGcmSecretStorageProvider<MemoryStorageBackend> {
    fn default() -> (r: Self)
        ensures
            r.backend().items() == Map::<Seq<char>, Seq<char>>::empty(),
            r.default_passphrase() is None,
    {
        Self::new(MemoryStorageBackend::new(), None)
    }
}

} // verus!
