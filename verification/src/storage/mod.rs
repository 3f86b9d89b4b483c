//! Secret storage: metadata and payloads of stored secrets, options of the
//! storage operations, key-value backends and the providers built on them.

pub mod secure_memory;
pub mod memory;
pub mod aes_gcm;
pub mod envelope;

use vstd::prelude::*;
use crate::error::KnishIOError;
use crate::text::{str_eq, strings_view};
use crate::keyed::{keyed, distinct_keys, key_set, lemma_keyed_dom, lemma_keyed_absent, lemma_keyed_index,
    lemma_keyed_push, lemma_distinct_push, lemma_keyed_update, lemma_keyed_remove};

pub use crate::storage::memory::MemorySecretStorageProvider;
pub use crate::storage::aes_gcm::AesGcmSecretStorageProvider;

verus! {

/// What is recorded beside a stored secret.
#[derive(Debug)]
pub struct SecretStorageMetadata {
    /// Bundle hash of the account the secret belongs to
    pub bundle_hash: String,
    /// Optional human-readable label
    pub label: Option<String>,
    /// Creation time in milliseconds since the epoch
    pub created_at: i64,
    /// Whether the secret is held by hardware (TPM, Secure Enclave)
    pub hardware_backed: bool,
    /// The kind of provider that stored the secret
    pub provider_type: String,
}

impl Clone for SecretStorageMetadata {
    fn clone(&self) -> (r: Self)
        ensures
            r.bundle_hash@ == self.bundle_hash@,
            crate::text::opt_view(r.label) == crate::text::opt_view(self.label),
            r.created_at == self.created_at,
            r.hardware_backed == self.hardware_backed,
            r.provider_type@ == self.provider_type@,
    {
        SecretStorageMetadata {
            bundle_hash: self.bundle_hash.clone(),
            label: match &self.label {
                Some(l) => Some(l.clone()),
                None => None,
            },
            created_at: self.created_at,
            hardware_backed: self.hardware_backed,
            provider_type: self.provider_type.clone(),
        }
    }
}

/// An encrypted secret as it is stored: format version 1, AES-GCM ciphertext,
/// initialisation vector and key-derivation salt in base64, the PBKDF2
/// iteration count, and the metadata.
#[derive(Debug)]
pub struct EncryptedSecretPayload {
    /// Payload format version
    pub version: u32,
    /// Base64 AES-GCM ciphertext
    pub ciphertext: String,
    /// Base64 initialisation vector of 12 bytes
    pub iv: String,
    /// Base64 key-derivation salt of 16 bytes
    pub salt: String,
    /// Encryption algorithm
    pub algorithm: String,
    /// PBKDF2 iteration count
    pub iterations: u32,
    /// The metadata stored with the secret
    pub metadata: SecretStorageMetadata,
}

/// Options of a storage operation.
#[derive(Debug)]
pub struct StorageOptions {
    /// Optional label for the stored secret
    pub label: Option<String>,
    /// Passphrase from which the encryption key is derived
    pub passphrase: Option<String>,
}

impl StorageOptions {
    /// Options with a passphrase and no label.
    pub fn with_passphrase(passphrase: &str) -> (r: Self)
        ensures
            r.label is None,
            r.passphrase matches Some(p) && p@ == passphrase@,
    {
        StorageOptions { label: None, passphrase: Some(passphrase.to_owned()) }
    }

    /// Options with the given label and passphrase.
    pub fn new(label: Option<String>, passphrase: Option<String>) -> (r: Self)
        ensures
            r.label == label,
            r.passphrase == passphrase,
    {
        StorageOptions { label, passphrase }
    }
}

impl Default for StorageOptions {
    fn default() -> (r: Self)
        ensures
            r.label is None,
            r.passphrase is None,
    {
        StorageOptions { label: None, passphrase: None }
    }
}

/// A key-value store in which providers keep their records (memory, TPM
/// NVRAM, an OS keyring, a file).
pub trait StorageBackend {
    /// The items held, by key.
    spec fn items(&self) -> Map<Seq<char>, Seq<char>>;

    /// The item under `key`, if any.
    fn get_item(&self, key: &str) -> (r: Option<String>)
        ensures
            match r {
                Some(v) => self.items().dom().contains(key@) && self.items()[key@] == v@,
                None => !self.items().dom().contains(key@),
            };

    /// Store `value` under `key`, replacing any item there.
    fn set_item(&mut self, key: &str, value: String)
        ensures
            final(self).items() == old(self).items().insert(key@, value@);

    /// Remove the item under `key`; whether there was one.
    fn remove_item(&mut self, key: &str) -> (r: bool)
        ensures
            r == old(self).items().dom().contains(key@),
            final(self).items() == old(self).items().remove(key@);

    /// The keys of all items, each once.
    fn keys(&self) -> (r: Vec<String>)
        ensures
            strings_view(r@).no_duplicates(),
            strings_view(r@).to_set() == self.items().dom();
}

/// A store of secrets by bundle hash (in memory, under a passphrase, in a TPM
/// or a secure enclave).
pub trait SecretStorageProvider {
    /// The kind of provider.
    fn provider_type(&self) -> &str;

    /// Whether the secrets are held by hardware.
    fn is_hardware_backed(&self) -> bool;

    /// Whether the provider can be used here.
    fn is_available(&self) -> bool;

    /// Store `secret` under `bundle_hash`.
    fn store_secret(&mut self, bundle_hash: &str, secret: &str, options: StorageOptions) -> Result<(), KnishIOError>;

    /// The secret stored under `bundle_hash`, if any.
    fn retrieve_secret(&self, bundle_hash: &str, options: StorageOptions) -> Result<Option<String>, KnishIOError>;

    /// Remove the secret stored under `bundle_hash`; whether there was one.
    fn delete_secret(&mut self, bundle_hash: &str) -> Result<bool, KnishIOError>;

    /// Whether a secret is stored under `bundle_hash`.
    fn has_secret(&self, bundle_hash: &str) -> Result<bool, KnishIOError>;

    /// The metadata of every stored secret, without the secrets.
    fn list_secrets(&self) -> Result<Vec<SecretStorageMetadata>, KnishIOError>;
}

/// The entries of a string store as character pairs.
pub open spec fn pair_entries(s: Seq<(String, String)>) -> Seq<(Seq<char>, Seq<char>)> {
    s.map_values(|e: (String, String)| (e.0@, e.1@))
}

/// The index of the entry under `key` in a list of string pairs, if any.
pub fn find_pair(entries: &Vec<(String, String)>, key: &str) -> (r: Option<usize>)
    ensures
        match r {
            Some(i) => i < entries@.len() && entries@[i as int].0@ == key@,
            None => forall|i: int| 0 <= i < entries@.len() ==> #[trigger] entries@[i].0@ != key@,
        },
{
    let mut i: usize = 0;
    while i < entries.len()
        invariant
            i <= entries@.len(),
            forall|j: int| 0 <= j < i ==> #[trigger] entries@[j].0@ != key@,
        decreases entries@.len() - i,
    {
        if str_eq(entries[i].0.as_str(), key) {
            return Some(i);
        }
        i = i + 1;
    }
    None
}

/// Store `value` under `key` in a list of string pairs with distinct keys.
pub fn set_pair(entries: &mut Vec<(String, String)>, key: &str, value: String)
    requires
        distinct_keys(pair_entries(old(entries)@)),
    ensures
        distinct_keys(pair_entries(final(entries)@)),
        keyed(pair_entries(final(entries)@)) == keyed(pair_entries(old(entries)@)).insert(key@, value@),
{
    let ghost v = value@;
    match find_pair(entries, key) {
        Some(i) => {
            proof { lemma_keyed_update(pair_entries(entries@), i as int, v); }
            entries.set(i, (key.to_owned(), value));
            assert(pair_entries(entries@) =~= pair_entries(old(entries)@).update(i as int, (key@, v)));
        },
        None => {
            proof {
                lemma_keyed_push(pair_entries(entries@), key@, v);
                lemma_distinct_push(pair_entries(entries@), key@, v);
            }
            entries.push((key.to_owned(), value));
            assert(pair_entries(entries@) =~= pair_entries(old(entries)@).push((key@, v)));
        },
    }
}

/// Remove the entry under `key` from a list of string pairs with distinct keys,
/// handing back its value.
pub fn remove_pair(entries: &mut Vec<(String, String)>, key: &str) -> (r: Option<String>)
    requires
        distinct_keys(pair_entries(old(entries)@)),
    ensures
        distinct_keys(pair_entries(final(entries)@)),
        keyed(pair_entries(final(entries)@)) == keyed(pair_entries(old(entries)@)).remove(key@),
        match r {
            Some(v) => keyed(pair_entries(old(entries)@)).dom().contains(key@)
                && keyed(pair_entries(old(entries)@))[key@] == v@,
            None => !keyed(pair_entries(old(entries)@)).dom().contains(key@),
        },
{
    match find_pair(entries, key) {
        Some(i) => {
            proof {
                lemma_keyed_index(pair_entries(entries@), i as int);
                lemma_keyed_remove(pair_entries(entries@), i as int);
            }
            let (_, v) = entries.remove(i);
            assert(pair_entries(entries@) =~= pair_entries(old(entries)@).remove(i as int));
            Some(v)
        },
        None => {
            proof { lemma_keyed_absent(pair_entries(entries@), key@); }
            assert(keyed(pair_entries(old(entries)@)).remove(key@) =~= keyed(pair_entries(old(entries)@)));
            None
        },
    }
}

/// The value under `key` in a list of string pairs with distinct keys.
pub fn get_pair(entries: &Vec<(String, String)>, key: &str) -> (r: Option<String>)
    requires
        distinct_keys(pair_entries(entries@)),
    ensures
        match r {
            Some(v) => keyed(pair_entries(entries@)).dom().contains(key@) && keyed(pair_entries(entries@))[key@] == v@,
            None => !keyed(pair_entries(entries@)).dom().contains(key@),
        },
{
    match find_pair(entries, key) {
        Some(i) => {
            proof { lemma_keyed_index(pair_entries(entries@), i as int); }
            Some(entries[i].1.clone())
        },
        None => {
            proof { lemma_keyed_absent(pair_entries(entries@), key@); }
            None
        },
    }
}

/// The keys of a list of string pairs with distinct keys, in order.
pub fn pair_keys(entries: &Vec<(String, String)>) -> (r: Vec<String>)
    requires
        distinct_keys(pair_entries(entries@)),
    ensures
        strings_view(r@).no_duplicates(),
        strings_view(r@).to_set() == keyed(pair_entries(entries@)).dom(),
{
    let mut r: Vec<String> = Vec::new();
    let mut i: usize = 0;
    while i < entries.len()
        invariant
            i <= entries@.len(),
            r@.len() == i,
            forall|j: int| 0 <= j < i ==> (#[trigger] r@[j])@ == entries@[j].0@,
        decreases entries@.len() - i,
    {
        r.push(entries[i].0.clone());
        i = i + 1;
    }
    proof {
        let pe = pair_entries(entries@);
        lemma_keyed_dom(pe);
        assert forall|a: int, b: int| 0 <= a < strings_view(r@).len() && 0 <= b < strings_view(r@).len() && a != b
            implies strings_view(r@)[a] != strings_view(r@)[b] by {
            if a < b {
                assert(pe[a].0 != pe[b].0);
            } else {
                assert(pe[b].0 != pe[a].0);
            }
        }
        assert forall|k: Seq<char>| #[trigger] strings_view(r@).to_set().contains(k) <==> key_set(pe).contains(k) by {
            if strings_view(r@).contains(k) {
                let j = choose|j: int| 0 <= j < strings_view(r@).len() && strings_view(r@)[j] == k;
                assert(pe[j].0 == k);
            }
            if key_set(pe).contains(k) {
                let j = choose|j: int| 0 <= j < pe.len() && #[trigger] pe[j].0 == k;
                assert(strings_view(r@)[j] == k);
            }
        }
        assert(strings_view(r@).to_set() =~= keyed(pe).dom());
    }
    r
}

/// A key-value store held in memory.
#[derive(Debug)]
pub struct MemoryStorageBackend {
    store: Vec<(String, String)>,
}

impl MemoryStorageBackend {
    #[verifier::type_invariant]
    spec fn inv(self) -> bool {
        distinct_keys(pair_entries(self.store@))
    }

    /// An empty store.
    pub fn new() -> (r: Self)
        ensures
            r.items() == Map::<Seq<char>, Seq<char>>::empty(),
    {
        let r = MemoryStorageBackend { store: Vec::new() };
        assert(pair_entries(r.store@) =~= Seq::empty());
        r
    }
}

impl Default for MemoryStorageBackend {
    fn default() -> (r: Self)
        ensures
            r.items() == Map::<Seq<char>, Seq<char>>::empty(),
    {
        Self::new()
    }
}

impl StorageBackend for MemoryStorageBackend {
    closed spec fn items(&self) -> Map<Seq<char>, Seq<char>> {
        keyed(pair_entries(self.store@))
    }

    fn get_item(&self, key: &str) -> (r: Option<String>) {
        proof { use_type_invariant(self); }
        get_pair(&self.store, key)
    }

    fn set_item(&mut self, key: &str, value: String) {
        proof { use_type_invariant(&*self); }
        let mut store: Vec<(String, String)> = Vec::new();
        std::mem::swap(&mut store, &mut self.store);
        set_pair(&mut store, key, value);
        self.store = store;
    }

    fn remove_item(&mut self, key: &str) -> (r: bool) {
        proof { use_type_invariant(&*self); }
        let mut store: Vec<(String, String)> = Vec::new();
        std::mem::swap(&mut store, &mut self.store);
        let r = remove_pair(&mut store, key);
        self.store = store;
        r.is_some()
    }

    fn keys(&self) -> (r: Vec<String>) {
        proof { use_type_invariant(self); }
        pair_keys(&self.store)
    }
}

/// A value read back from a store is the last value written under its key;
/// writing under one key leaves every other key as it was.
pub proof fn law_backend_read_after_write(
    items: Map<Seq<char>, Seq<char>>,
    key: Seq<char>,
    value: Seq<char>,
    other: Seq<char>,
)
    ensures
        items.insert(key, value).dom().contains(key),
        items.insert(key, value)[key] == value,
        other != key ==> (items.insert(key, value).dom().contains(other) == items.dom().contains(other)),
        other != key && items.dom().contains(other) ==> items.insert(key, value)[other] == items[other],
        !items.remove(key).dom().contains(key),
{
}

} // verus!
