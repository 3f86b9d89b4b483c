//! Wallet bundles and their metadata.

use vstd::prelude::*;
use crate::json::{Json, JsonValue, entries_view, object, push_entry, str_array, string_array};
use crate::text::{strings_view, to_owned_strings};

verus! {

/// The GraphQL text of this query.
pub const WALLET_BUNDLE_QUERY: &'static str = r#"query( $bundleHashes: [ String! ] ) {
          WalletBundle( bundleHashes: $bundleHashes ) {
            bundleHash,
            metas {
              molecularHash,
              position,
              key,
              value,
              createdAt
            },
            createdAt
          }
        }"#;


/// Query for information about wallet bundles.
#[derive(Debug)]
pub struct QueryWalletBundle {
    /// Bundle hashes to query
    pub bundle_hashes: Vec<String>,
}

/// The variables this query sends when none are provided: one entry per
/// parameter that is set, in this order.
pub open spec fn wallet_bundle_variables(q: QueryWalletBundle) -> Seq<(Seq<char>, Json)> {
    seq![("bundleHashes"@, str_array(strings_view(q.bundle_hashes@)))]
}

impl QueryWalletBundle {
    /// A query with no parameter set.
    pub fn new() -> (q: Self)
        ensures
            q.bundle_hashes@.len() == 0,
    {
        QueryWalletBundle { bundle_hashes: Vec::new() }
    }

    /// Append one bundle hash.
    pub fn add_bundle_hash(self, bundle_hash: &str) -> (q: Self)
        ensures
            strings_view(q.bundle_hashes@) == strings_view(self.bundle_hashes@).push(bundle_hash@),
    {
        let mut q = self;
        q.bundle_hashes.push(bundle_hash.to_owned());
        assert(strings_view(q.bundle_hashes@) =~= strings_view(self.bundle_hashes@).push(bundle_hash@));
        q
    }

    /// Append several bundle hashes.
    pub fn add_bundle_hashes(self, bundle_hashes: Vec<String>) -> (q: Self)
        ensures
            q.bundle_hashes@ == self.bundle_hashes@ + bundle_hashes@,
    {
        let mut q = self;
        let mut more = bundle_hashes;
        q.bundle_hashes.append(&mut more);
        q
    }

    /// Replace the bundle hashes.
    pub fn set_bundle_hashes(&mut self, bundle_hashes: Vec<String>)
        ensures
            final(self).bundle_hashes == bundle_hashes,
    {
        self.bundle_hashes = bundle_hashes;
    }

    /// The bundle hashes.
    pub fn bundle_hashes(&self) -> (r: &[String])
        ensures
            r@ == self.bundle_hashes@,
    {
        self.bundle_hashes.as_slice()
    }

    /// The query text.
    pub fn get_query(&self) -> (s: &'static str)
        ensures
            s@ == WALLET_BUNDLE_QUERY@,
    {
        WALLET_BUNDLE_QUERY
    }

    /// The variables to send: those provided, else one entry per parameter set.
    pub fn compiled_variables(&self, variables: Option<JsonValue>) -> (res: Option<JsonValue>)
        ensures
            variables is Some ==> res == variables,
            variables is None ==> (res matches Some(v) && v@ == Json::Object(wallet_bundle_variables(*self))),
    {
        match variables {
            Some(v) => Some(v),
            None => {
                let mut entries: Vec<(String, JsonValue)> = Vec::new();
                assert(entries_view(entries@) == Seq::<(Seq<char>, Json)>::empty());
                push_entry(&mut entries, "bundleHashes", string_array(&self.bundle_hashes));
                assert(wallet_bundle_variables(*self) =~= Seq::<(Seq<char>, Json)>::empty().push(("bundleHashes"@, str_array(strings_view(self.bundle_hashes@)))));
                Some(object(entries))
            },
        }
    }

    /// A query for the given bundle hashes.
    pub fn with_bundle_hashes(bundle_hashes: Vec<String>) -> (q: Self)
        ensures
            q.bundle_hashes == bundle_hashes,
    {
        QueryWalletBundle { bundle_hashes }
    }

    /// A query for the given bundle hashes.
    pub fn by_bundles(bundle_hashes: Vec<String>) -> (q: Self)
        ensures
            q.bundle_hashes == bundle_hashes,
    {
        Self::with_bundle_hashes(bundle_hashes)
    }

    /// Remove every bundle hash.
    pub fn clear_bundle_hashes(&mut self)
        ensures
            final(self).bundle_hashes@.len() == 0,
    {
        self.bundle_hashes.clear();
    }

    /// A query for a single bundle hash.
    pub fn by_bundle(bundle_hash: &str) -> (q: Self)
        ensures
            strings_view(q.bundle_hashes@) == seq![bundle_hash@],
    {
        let q = Self::new().add_bundle_hash(bundle_hash);
        assert(strings_view(Seq::<String>::empty()).push(bundle_hash@) =~= seq![bundle_hash@]);
        q
    }

    /// A query for bundle hashes given as string slices.
    pub fn from_slice(bundle_hashes: &[&str]) -> (q: Self)
        ensures
            q.bundle_hashes@.len() == bundle_hashes@.len(),
            forall|i: int| 0 <= i < bundle_hashes@.len() ==> (#[trigger] q.bundle_hashes@[i])@ == bundle_hashes@[i]@,
    {
        Self::with_bundle_hashes(to_owned_strings(bundle_hashes))
    }

}

} // verus!
