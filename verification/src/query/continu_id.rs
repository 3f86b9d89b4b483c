//! The next wallet to sign with for ContinuID.

use vstd::prelude::*;
use crate::json::{Json, JsonValue, entries_view, lemma_lookup_concat, lemma_lookup_single, lookup, object, push_entry};

verus! {

/// The GraphQL text of this query.
pub const CONTINU_ID_QUERY: &'static str = r#"query ($bundle: String!, $token: String) {
          ContinuId(bundle: $bundle, token: $token) {
            address,
            bundleHash,
            tokenSlug,
            position,
            batchId,
            characters,
            pubkey,
            amount,
            createdAt
          }
        }"#;

/// The token whose ContinuID chain a query resolves unless told otherwise:
/// the identity chain.
pub const DEFAULT_CONTINU_ID_TOKEN: &'static str = "USER";

/// Query for the next wallet to sign with for ContinuID.
#[derive(Debug)]
pub struct QueryContinuId {
    /// Bundle hash (required)
    pub bundle: String,
    /// Token whose ContinuID chain to resolve
    pub token: String,
}

/// The variables this query sends when none are provided.
pub open spec fn continu_id_variables(q: QueryContinuId) -> Seq<(Seq<char>, Json)> {
    seq![("bundle"@, Json::Str(q.bundle@)), ("token"@, Json::Str(q.token@))]
}

/// The variables of a ContinuID query give the bundle under `bundle` and the
/// token under `token`.
pub proof fn law_continu_id_variables(q: QueryContinuId)
    ensures
        lookup(continu_id_variables(q), "bundle"@) == Some(Json::Str(q.bundle@)),
        lookup(continu_id_variables(q), "token"@) == Some(Json::Str(q.token@)),
{
    reveal_strlit("bundle");
    reveal_strlit("token");
    assert("bundle"@.len() == 6 && "token"@.len() == 5);
    let e1 = seq![("bundle"@, Json::Str(q.bundle@))];
    let e2 = seq![("token"@, Json::Str(q.token@))];
    assert(continu_id_variables(q) == e1 + e2);
    lemma_lookup_concat(e1, e2, "bundle"@);
    lemma_lookup_concat(e1, e2, "token"@);
    lemma_lookup_single("bundle"@, Json::Str(q.bundle@), "bundle"@);
    lemma_lookup_single("bundle"@, Json::Str(q.bundle@), "token"@);
    lemma_lookup_single("token"@, Json::Str(q.token@), "token"@);
}

impl QueryContinuId {
    /// A query for a bundle, on the identity chain.
    pub fn new(bundle: &str) -> (q: Self)
        ensures
            q.bundle@ == bundle@,
            q.token@ == DEFAULT_CONTINU_ID_TOKEN@,
    {
        QueryContinuId { bundle: bundle.to_owned(), token: DEFAULT_CONTINU_ID_TOKEN.to_owned() }
    }

    /// The bundle hash.
    pub fn bundle(&self) -> (r: &str)
        ensures
            r@ == self.bundle@,
    {
        self.bundle.as_str()
    }

    /// Replace the bundle hash.
    pub fn set_bundle(&mut self, bundle: &str)
        ensures
            final(self).bundle@ == bundle@,
            final(self).token == old(self).token,
    {
        self.bundle = bundle.to_owned();
    }

    /// Resolve the chain of another token.
    pub fn with_token(self, token: &str) -> (q: Self)
        ensures
            q.bundle == self.bundle,
            q.token@ == token@,
    {
        QueryContinuId { bundle: self.bundle, token: token.to_owned() }
    }

    /// The token whose chain is resolved.
    pub fn token(&self) -> (r: &str)
        ensures
            r@ == self.token@,
    {
        self.token.as_str()
    }

    /// The query text.
    pub fn get_query(&self) -> (s: &'static str)
        ensures
            s@ == CONTINU_ID_QUERY@,
    {
        CONTINU_ID_QUERY
    }

    /// The variables to send: those provided, else the bundle and the token.
    pub fn compiled_variables(&self, variables: Option<JsonValue>) -> (res: Option<JsonValue>)
        ensures
            variables is Some ==> res == variables,
            variables is None ==> (res matches Some(v) && v@ == Json::Object(continu_id_variables(*self))),
    {
        match variables {
            Some(v) => Some(v),
            None => {
                let mut entries: Vec<(String, JsonValue)> = Vec::new();
                assert(entries_view(entries@) == Seq::<(Seq<char>, Json)>::empty());
                push_entry(&mut entries, "bundle", JsonValue::Str(self.bundle.clone()));
                push_entry(&mut entries, "token", JsonValue::Str(self.token.clone()));
                assert(continu_id_variables(*self) =~= Seq::<(Seq<char>, Json)>::empty().push(("bundle"@, Json::Str(self.bundle@))).push(("token"@, Json::Str(self.token@))));
                Some(object(entries))
            },
        }
    }

    /// A query for a bundle (the most common pattern).
    pub fn by_bundle(bundle: &str) -> (q: Self)
        ensures
            q.bundle@ == bundle@,
            q.token@ == DEFAULT_CONTINU_ID_TOKEN@,
    {
        Self::new(bundle)
    }
}

} // verus!
