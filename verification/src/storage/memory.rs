//! A secret storage provider that keeps secrets in memory, for tests,
//! headless environments and as a fallback with no dependencies.

use vstd::prelude::*;
use crate::clock::current_time_millis;
use crate::error::KnishIOError;
use crate::keyed::{keyed, distinct_keys, key_set, raw_entries, lemma_keyed_dom, lemma_keyed_index, get_entry,
    set_entry, remove_entry};
use crate::storage::{SecretStorageMetadata, SecretStorageProvider, StorageOptions, pair_entries, get_pair, remove_pair};
use crate::storage::secure_memory::with_secure_string;
use crate::text::opt_view;

verus! {

/// Two metadata records hold the same values.
pub open spec fn same_metadata(a: SecretStorageMetadata, b: SecretStorageMetadata) -> bool {
    &&& a.bundle_hash@ == b.bundle_hash@
    &&& opt_view(a.label) == opt_view(b.label)
    &&& a.created_at == b.created_at
    &&& a.hardware_backed == b.hardware_backed
    &&& a.provider_type@ == b.provider_type@
}

/// Secrets kept in memory, each with its metadata, by bundle hash; and the
/// recovery envelopes (JSON text) by bundle hash.
#[derive(Debug)]
pub struct MemorySecretStorageProvider {
    store: Vec<(String, (String, SecretStorageMetadata))>,
    recovery_store: Vec<(String, String)>,
}

impl MemorySecretStorageProvider {
    #[verifier::type_invariant]
    spec fn inv(self) -> bool {
        &&& distinct_keys(raw_entries(self.store@))
        &&& forall|i: int| 0 <= i < self.store@.len() ==> (#[trigger] self.store@[i]).1.1.bundle_hash@ == self.store@[i].0@
        &&& distinct_keys(pair_entries(self.recovery_store@))
    }

    /// The stored secrets with their metadata, by bundle hash.
    pub closed spec fn records(&self) -> Map<Seq<char>, (String, SecretStorageMetadata)> {
        keyed(raw_entries(self.store@))
    }

    /// The recovery envelopes, by bundle hash.
    pub closed spec fn recovery(&self) -> Map<Seq<char>, Seq<char>> {
        keyed(pair_entries(self.recovery_store@))
    }

    /// An empty provider.
    pub fn new() -> (r: Self)
        ensures
            r.records() == Map::<Seq<char>, (String, SecretStorageMetadata)>::empty(),
            r.recovery() == Map::<Seq<char>, Seq<char>>::empty(),
    {
        let r = MemorySecretStorageProvider { store: Vec::new(), recovery_store: Vec::new() };
        assert(raw_entries(r.store@) =~= Seq::empty());
        assert(pair_entries(r.recovery_store@) =~= Seq::empty());
        r
    }




    /// Store `secret` under `bundle_hash`, replacing any secret there, with
    /// metadata that records the bundle hash, the label of `options`, the
    /// current time and the provider type `memory`. Neither the bundle hash
    /// nor the secret may be empty.
    pub fn store_secret_sync(&mut self, bundle_hash: &str, secret: &str, options: StorageOptions) -> (r: Result<(), KnishIOError>)
        ensures
            bundle_hash@.len() == 0 ==> (r matches Err(KnishIOError::SecretStorage(m)) && m@ == "Bundle hash cannot be empty"@),
            bundle_hash@.len() != 0 && secret@.len() == 0 ==> (r matches Err(KnishIOError::SecretStorage(m))
                && m@ == "Secret cannot be empty"@),
            r is Err ==> final(self).records() == old(self).records(),
            bundle_hash@.len() != 0 && secret@.len() != 0 ==> {
                let rec = final(self).records()[bundle_hash@];
                &&& r is Ok
                &&& final(self).records() == old(self).records().insert(bundle_hash@, rec)
                &&& rec.0@ == secret@
                &&& rec.1.bundle_hash@ == bundle_hash@
                &&& opt_view(rec.1.label) == opt_view(options.label)
                &&& !rec.1.hardware_backed
                &&& rec.1.provider_type@ == "memory"@
            },
            final(self).recovery() == old(self).recovery(),
    {
        proof { use_type_invariant(&*self); }
        if bundle_hash.is_empty() {
            return Err(KnishIOError::SecretStorage("Bundle hash cannot be empty".to_owned()));
        }
        if secret.is_empty() {
            return Err(KnishIOError::SecretStorage("Secret cannot be empty".to_owned()));
        }
        let metadata = SecretStorageMetadata {
            bundle_hash: bundle_hash.to_owned(),
            label: options.label,
            created_at: current_time_millis(),
            hardware_backed: false,
            provider_type: "memory".to_owned(),
        };
        let mut store: Vec<(String, (String, SecretStorageMetadata))> = Vec::new();
        std::mem::swap(&mut store, &mut self.store);
        let ghost before = store@;
        set_entry(&mut store, bundle_hash, (secret.to_owned(), metadata));
        proof {
            lemma_keyed_dom(raw_entries(store@));
            assert forall|i: int| 0 <= i < store@.len() implies (#[trigger] store@[i]).1.1.bundle_hash@ == store@[i].0@ by {
                let re = raw_entries(store@);
                lemma_keyed_index(re, i);
                if re[i].0 != bundle_hash@ {
                    assert(keyed(raw_entries(before)).dom().contains(re[i].0));
                    lemma_keyed_dom(raw_entries(before));
                    let j = choose|j: int| 0 <= j < raw_entries(before).len() && #[trigger] raw_entries(before)[j].0 == re[i].0;
                    lemma_keyed_index(raw_entries(before), j);
                    assert(before[j].1.1.bundle_hash@ == before[j].0@);
                }
            }
        }
        self.store = store;
        Ok(())
    }





    /// Remove every secret and every recovery envelope.
    pub fn clear(&mut self)
        ensures
            final(self).records() == Map::<Seq<char>, (String, SecretStorageMetadata)>::empty(),
            final(self).recovery() == Map::<Seq<char>, Seq<char>>::empty(),
    {
        proof { use_type_invariant(&*self); }
        self.store = Vec::new();
        self.recovery_store = Vec::new();
        assert(raw_entries(self.store@) =~= Seq::empty());
        assert(pair_entries(self.recovery_store@) =~= Seq::empty());
    }

    /// The recovery envelope stored under `bundle_hash`, if any.
    pub fn get_recovery_payload(&self, bundle_hash: &str) -> (r: Option<String>)
        ensures
            match r {
                Some(p) => self.recovery().dom().contains(bundle_hash@) && self.recovery()[bundle_hash@] == p@,
                None => !self.recovery().dom().contains(bundle_hash@),
            },
    {
        proof { use_type_invariant(self); }
        get_pair(&self.recovery_store, bundle_hash)
    }

    /// Run `f` on the secret stored under `bundle_hash`, zeroing the copy it
    /// was handed afterwards; `SecretNotFound` when there is none.
    pub fn with_secret<T, F: FnOnce(&str) -> Result<T, KnishIOError>>(
        &self,
        bundle_hash: &str,
        options: StorageOptions,
        f: F,
    ) -> (r: Result<T, KnishIOError>)
        requires
            forall|s: &str| #[trigger] f.requires((s,)),
        ensures
            !self.records().dom().contains(bundle_hash@) ==> (r matches Err(KnishIOError::SecretNotFound(m))
                && m@ == bundle_hash@),
            self.records().dom().contains(bundle_hash@) ==> exists|s: &str|
                s@ == self.records()[bundle_hash@].0@ && #[trigger] f.ensures((s,), r),
    {
        proof { use_type_invariant(self); }
        match get_entry(&self.store, bundle_hash) {
            Some(rec) => with_secure_string(rec.0.clone(), f),
            None => Err(KnishIOError::SecretNotFound(bundle_hash.to_owned())),
        }
    }
}

impl SecretStorageProvider for MemorySecretStorageProvider {
    /// The kind of this provider: `memory`.
    fn provider_type(&self) -> (r: &str)
        ensures
            r@ == "memory"@,
    {
        "memory"
    }

    /// Whether the secrets are held by hardware: never for this provider.
    fn is_hardware_backed(&self) -> (r: bool)
        ensures
            !r,
    {
        false
    }

    /// Whether the provider can be used here: always.
    fn is_available(&self) -> (r: bool)
        ensures
            r,
    {
        true
    }

    fn store_secret(&mut self, bundle_hash: &str, secret: &str, options: StorageOptions) -> (r: Result<(), KnishIOError>)
        ensures
            bundle_hash@.len() == 0 ==> (r matches Err(KnishIOError::SecretStorage(m)) && m@ == "Bundle hash cannot be empty"@),
            bundle_hash@.len() != 0 && secret@.len() == 0 ==> (r matches Err(KnishIOError::SecretStorage(m))
                && m@ == "Secret cannot be empty"@),
            r is Err ==> final(self).records() == old(self).records(),
            bundle_hash@.len() != 0 && secret@.len() != 0 ==> {
                let rec = final(self).records()[bundle_hash@];
                &&& r is Ok
                &&& final(self).records() == old(self).records().insert(bundle_hash@, rec)
                &&& rec.0@ == secret@
                &&& rec.1.bundle_hash@ == bundle_hash@
                &&& opt_view(rec.1.label) == opt_view(options.label)
                &&& !rec.1.hardware_backed
                &&& rec.1.provider_type@ == "memory"@
            },
            final(self).recovery() == old(self).recovery(),
    {
        self.store_secret_sync(bundle_hash, secret, options)
    }

    /// The secret stored under `bundle_hash`, if any.
    fn retrieve_secret(&self, bundle_hash: &str, options: StorageOptions) -> (r: Result<Option<String>, KnishIOError>)
        ensures
            r matches Ok(o) && match o {
                Some(s) => self.records().dom().contains(bundle_hash@) && self.records()[bundle_hash@].0@ == s@,
                None => !self.records().dom().contains(bundle_hash@),
            },
    {
        proof { use_type_invariant(self); }
        match get_entry(&self.store, bundle_hash) {
            Some(rec) => Ok(Some(rec.0.clone())),
            None => Ok(None),
        }
    }

    /// Remove the secret and the recovery envelope stored under `bundle_hash`;
    /// whether there was a secret.
    fn delete_secret(&mut self, bundle_hash: &str) -> (r: Result<bool, KnishIOError>)
        ensures
            r == Ok::<bool, KnishIOError>(old(self).records().dom().contains(bundle_hash@)),
            final(self).records() == old(self).records().remove(bundle_hash@),
            final(self).recovery() == old(self).recovery().remove(bundle_hash@),
    {
        proof { use_type_invariant(&*self); }
        let mut recovery: Vec<(String, String)> = Vec::new();
        std::mem::swap(&mut recovery, &mut self.recovery_store);
        let _ = remove_pair(&mut recovery, bundle_hash);
        self.recovery_store = recovery;
        let mut store: Vec<(String, (String, SecretStorageMetadata))> = Vec::new();
        std::mem::swap(&mut store, &mut self.store);
        let ghost before = store@;
        let removed = remove_entry(&mut store, bundle_hash);
        proof {
            assert forall|i: int| 0 <= i < store@.len() implies (#[trigger] store@[i]).1.1.bundle_hash@ == store@[i].0@ by {
                let re = raw_entries(store@);
                lemma_keyed_dom(raw_entries(store@));
                lemma_keyed_index(re, i);
                assert(keyed(raw_entries(before)).dom().contains(re[i].0));
                lemma_keyed_dom(raw_entries(before));
                let j = choose|j: int| 0 <= j < raw_entries(before).len() && #[trigger] raw_entries(before)[j].0 == re[i].0;
                lemma_keyed_index(raw_entries(before), j);
                assert(before[j].1.1.bundle_hash@ == before[j].0@);
            }
        }
        self.store = store;
        Ok(removed.is_some())
    }

    /// Whether a secret is stored under `bundle_hash`.
    fn has_secret(&self, bundle_hash: &str) -> (r: Result<bool, KnishIOError>)
        ensures
            r == Ok::<bool, KnishIOError>(self.records().dom().contains(bundle_hash@)),
    {
        proof { use_type_invariant(self); }
        Ok(get_entry(&self.store, bundle_hash).is_some())
    }

    /// The metadata of every stored secret, one record per bundle hash.
    fn list_secrets(&self) -> (r: Result<Vec<SecretStorageMetadata>, KnishIOError>)
        ensures
            r matches Ok(v) && {
                &&& forall|i: int| 0 <= i < v@.len() ==> self.records().dom().contains((#[trigger] v@[i]).bundle_hash@)
                    && same_metadata(v@[i], self.records()[v@[i].bundle_hash@].1)
                &&& forall|b: Seq<char>| #[trigger] self.records().dom().contains(b) ==> exists|i: int|
                    0 <= i < v@.len() && (#[trigger] v@[i]).bundle_hash@ == b
                &&& forall|i: int, j: int| 0 <= i < j < v@.len() ==> (#[trigger] v@[i]).bundle_hash@ != (#[trigger] v@[j]).bundle_hash@
            },
    {
        proof { use_type_invariant(self); }
        let ghost re = raw_entries(self.store@);
        let mut v: Vec<SecretStorageMetadata> = Vec::new();
        let mut i: usize = 0;
        while i < self.store.len()
            invariant
                i <= self.store@.len(),
                re == raw_entries(self.store@),
                distinct_keys(re),
                forall|k: int| 0 <= k < self.store@.len() ==> (#[trigger] self.store@[k]).1.1.bundle_hash@ == self.store@[k].0@,
                v@.len() == i,
                forall|k: int| 0 <= k < i ==> same_metadata(#[trigger] v@[k], self.store@[k].1.1),
            decreases self.store@.len() - i,
        {
            v.push(self.store[i].1.1.clone());
            i = i + 1;
        }
        proof {
            lemma_keyed_dom(re);
            assert forall|k: int| 0 <= k < v@.len() implies self.records().dom().contains((#[trigger] v@[k]).bundle_hash@)
                && same_metadata(v@[k], self.records()[v@[k].bundle_hash@].1) by {
                lemma_keyed_index(re, k);
            }
            assert forall|b: Seq<char>| #[trigger] self.records().dom().contains(b) implies exists|k: int|
                0 <= k < v@.len() && (#[trigger] v@[k]).bundle_hash@ == b by {
                let k = choose|k: int| 0 <= k < re.len() && #[trigger] re[k].0 == b;
                assert(v@[k].bundle_hash@ == b);
            }
            assert forall|a: int, b: int| 0 <= a < b < v@.len() implies (#[trigger] v@[a]).bundle_hash@ != (#[trigger] v@[b]).bundle_hash@ by {
                assert(re[a].0 != re[b].0);
            }
        }
        Ok(v)
    }
}

impl Default for MemorySecretStorageProvider {
    fn default() -> (r: Self)
        ensures
            r.records() == Map::<Seq<char>, (String, SecretStorageMetadata)>::empty(),
            r.recovery() == Map::<Seq<char>, Seq<char>>::empty(),
    {
        Self::new()
    }
}

/// A secret read back from the provider is the last one stored under its
/// bundle hash, and a deleted secret is no longer found.
pub proof fn law_secret_read_after_store(
    records: Map<Seq<char>, (String, SecretStorageMetadata)>,
    bundle_hash: Seq<char>,
    rec: (String, SecretStorageMetadata),
)
    ensures
        records.insert(bundle_hash, rec).dom().contains(bundle_hash),
        records.insert(bundle_hash, rec)[bundle_hash].0 == rec.0,
        !records.insert(bundle_hash, rec).remove(bundle_hash).dom().contains(bundle_hash),
{
}

} // verus!
