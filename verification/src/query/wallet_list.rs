//! Lists of wallets.

use vstd::prelude::*;
use crate::json::{
    Json, JsonValue, entries_view, lemma_lookup_concat, lemma_lookup_opt_str, lookup, object, opt_json_text,
    opt_str_entry, push_opt_str,
};
use crate::text::{opt_view, opt_ref_view, opt_as_str};

verus! {

/// The GraphQL text of this query.
pub const WALLET_LIST_QUERY: &'static str = r#"query( $bundleHash: String, $tokenSlug: String ) {
          Wallet( bundleHash: $bundleHash, tokenSlug: $tokenSlug ) {
            address,
            bundleHash,
            token {
              name,
              amount,
              fungibility,
              supply
            },
            tokenSlug,
            batchId,
            position,
            amount,
            characters,
            pubkey,
            createdAt,
            tokenUnits {
              id,
              name,
              metas
            },
            tradeRates {
              tokenSlug,
              amount
            }
          }
        }"#;

/// Query for a list of wallets.
#[derive(Debug)]
pub struct QueryWalletList {
    /// Bundle hash to filter by
    pub bundle_hash: Option<String>,
    /// Token slug to filter by
    pub token_slug: Option<String>,
}

/// The variables this query sends when none are provided: one entry per
/// parameter that is set.
pub open spec fn wallet_list_variables(q: QueryWalletList) -> Seq<(Seq<char>, Json)> {
    opt_str_entry("bundleHash"@, q.bundle_hash)
        + opt_str_entry("tokenSlug"@, q.token_slug)
}

/// The variables of a wallet-list query give the bundle hash under
/// `bundleHash` and the token slug under `tokenSlug`, each exactly when it is
/// set.
pub proof fn law_wallet_list_variables(q: QueryWalletList)
    ensures
        lookup(wallet_list_variables(q), "bundleHash"@) == opt_json_text(q.bundle_hash),
        lookup(wallet_list_variables(q), "tokenSlug"@) == opt_json_text(q.token_slug),
{
    reveal_strlit("bundleHash");
    reveal_strlit("tokenSlug");
    assert("bundleHash"@.len() == 10 && "tokenSlug"@.len() == 9);
    let e1 = opt_str_entry("bundleHash"@, q.bundle_hash);
    let e2 = opt_str_entry("tokenSlug"@, q.token_slug);
    lemma_lookup_concat(e1, e2, "bundleHash"@);
    lemma_lookup_concat(e1, e2, "tokenSlug"@);
    lemma_lookup_opt_str("bundleHash"@, q.bundle_hash, "bundleHash"@);
    lemma_lookup_opt_str("tokenSlug"@, q.token_slug, "bundleHash"@);
    lemma_lookup_opt_str("bundleHash"@, q.bundle_hash, "tokenSlug"@);
    lemma_lookup_opt_str("tokenSlug"@, q.token_slug, "tokenSlug"@);
}

impl QueryWalletList {
    /// A query with no parameter set.
    pub fn new() -> (q: Self)
        ensures
            q.bundle_hash is None,
            q.token_slug is None,
    {
        QueryWalletList { bundle_hash: None, token_slug: None }
    }

    /// Set the bundle hash parameter.
    pub fn with_bundle_hash(self, bundle_hash: &str) -> (q: Self)
        ensures
            opt_view(q.bundle_hash) == Some(bundle_hash@),
            q.token_slug == self.token_slug,
    {
        QueryWalletList { bundle_hash: Some(bundle_hash.to_owned()), token_slug: self.token_slug }
    }

    /// Set the token slug parameter.
    pub fn with_token_slug(self, token_slug: &str) -> (q: Self)
        ensures
            q.bundle_hash == self.bundle_hash,
            opt_view(q.token_slug) == Some(token_slug@),
    {
        QueryWalletList { bundle_hash: self.bundle_hash, token_slug: Some(token_slug.to_owned()) }
    }

    /// Set the bundle hash and the token slug together.
    pub fn with_filters(self, bundle_hash: &str, token_slug: &str) -> (q: Self)
        ensures
            opt_view(q.bundle_hash) == Some(bundle_hash@),
            opt_view(q.token_slug) == Some(token_slug@),
    {
        QueryWalletList { bundle_hash: Some(bundle_hash.to_owned()), token_slug: Some(token_slug.to_owned()) }
    }

    /// The bundle hash parameter, if set.
    pub fn bundle_hash(&self) -> (r: Option<&str>)
        ensures
            opt_ref_view(r) == opt_view(self.bundle_hash),
    {
        opt_as_str(&self.bundle_hash)
    }

    /// The token slug parameter, if set.
    pub fn token_slug(&self) -> (r: Option<&str>)
        ensures
            opt_ref_view(r) == opt_view(self.token_slug),
    {
        opt_as_str(&self.token_slug)
    }

    /// The query text.
    pub fn get_query(&self) -> (s: &'static str)
        ensures
            s@ == WALLET_LIST_QUERY@,
    {
        WALLET_LIST_QUERY
    }

    /// The variables to send: those provided, else one entry per parameter set.
    pub fn compiled_variables(&self, variables: Option<JsonValue>) -> (res: Option<JsonValue>)
        ensures
            variables is Some ==> res == variables,
            variables is None ==> (res matches Some(v) && v@ == Json::Object(wallet_list_variables(*self))),
    {
        match variables {
            Some(v) => Some(v),
            None => {
                let mut entries: Vec<(String, JsonValue)> = Vec::new();
                assert(entries_view(entries@) == Seq::<(Seq<char>, Json)>::empty());
                push_opt_str(&mut entries, "bundleHash", &self.bundle_hash);
                push_opt_str(&mut entries, "tokenSlug", &self.token_slug);
                assert(wallet_list_variables(*self) =~= Seq::<(Seq<char>, Json)>::empty() + opt_str_entry("bundleHash"@, self.bundle_hash) + opt_str_entry("tokenSlug"@, self.token_slug));
                Some(object(entries))
            },
        }
    }

    /// Wallets of a bundle.
    pub fn by_bundle_hash(bundle_hash: &str) -> (q: Self)
        ensures
            opt_view(q.bundle_hash) == Some(bundle_hash@),
            q.token_slug is None,
    {
        Self::new().with_bundle_hash(bundle_hash)
    }

    /// Wallets of a token.
    pub fn by_token_slug(token_slug: &str) -> (q: Self)
        ensures
            q.bundle_hash is None,
            opt_view(q.token_slug) == Some(token_slug@),
    {
        Self::new().with_token_slug(token_slug)
    }

    /// Wallets of a token in a bundle.
    pub fn by_bundle_and_token(bundle_hash: &str, token_slug: &str) -> (q: Self)
        ensures
            opt_view(q.bundle_hash) == Some(bundle_hash@),
            opt_view(q.token_slug) == Some(token_slug@),
    {
        Self::new().with_filters(bundle_hash, token_slug)
    }

    /// All wallets (no filter).
    pub fn all() -> (q: Self)
        ensures
            q.bundle_hash is None,
            q.token_slug is None,
    {
        Self::new()
    }


}

} // verus!
