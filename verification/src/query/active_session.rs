//! Active user sessions.

use vstd::prelude::*;
use crate::json::{
    Json, JsonValue, entries_view, lemma_lookup_concat, lemma_lookup_opt_str, lookup, object, opt_json_text,
    opt_str_entry, push_opt_str,
};
use crate::text::{opt_view, opt_ref_view, opt_as_str};

verus! {

/// The GraphQL text of this query.
pub const ACTIVE_SESSION_QUERY: &'static str = r#"query ActiveUserQuery ($bundleHash:String, $metaType: String, $metaId: String) {
          ActiveUser (bundleHash: $bundleHash, metaType: $metaType, metaId: $metaId) {
            bundleHash,
            metaType,
            metaId,
            jsonData,
            createdAt,
            updatedAt
          }
        }"#;

/// Query for the list of active user sessions.
#[derive(Debug)]
pub struct QueryActiveSession {
    /// Bundle hash to filter by
    pub bundle_hash: Option<String>,
    /// Meta type to filter by
    pub meta_type: Option<String>,
    /// Meta ID to filter by
    pub meta_id: Option<String>,
}

/// The variables this query sends when none are provided: one entry per
/// parameter that is set.
pub open spec fn active_session_variables(q: QueryActiveSession) -> Seq<(Seq<char>, Json)> {
    opt_str_entry("bundleHash"@, q.bundle_hash)
        + opt_str_entry("metaType"@, q.meta_type)
        + opt_str_entry("metaId"@, q.meta_id)
}

/// The variables of an active-session query give the bundle hash under
/// `bundleHash`, the meta type under `metaType` and the meta ID under
/// `metaId`, each exactly when it is set.
pub proof fn law_active_session_variables(q: QueryActiveSession)
    ensures
        lookup(active_session_variables(q), "bundleHash"@) == opt_json_text(q.bundle_hash),
        lookup(active_session_variables(q), "metaType"@) == opt_json_text(q.meta_type),
        lookup(active_session_variables(q), "metaId"@) == opt_json_text(q.meta_id),
{
    reveal_strlit("bundleHash");
    reveal_strlit("metaType");
    reveal_strlit("metaId");
    assert("bundleHash"@.len() == 10 && "metaType"@.len() == 8 && "metaId"@.len() == 6);
    let e1 = opt_str_entry("bundleHash"@, q.bundle_hash);
    let e2 = opt_str_entry("metaType"@, q.meta_type);
    let e3 = opt_str_entry("metaId"@, q.meta_id);
    let ks = seq!["bundleHash"@, "metaType"@, "metaId"@];
    assert forall|i: int| 0 <= i < 3 implies lookup(e1 + e2 + e3, #[trigger] ks[i]) == if i == 0 {
        opt_json_text(q.bundle_hash)
    } else if i == 1 {
        opt_json_text(q.meta_type)
    } else {
        opt_json_text(q.meta_id)
    } by {
        lemma_lookup_concat(e1 + e2, e3, ks[i]);
        lemma_lookup_concat(e1, e2, ks[i]);
        lemma_lookup_opt_str("bundleHash"@, q.bundle_hash, ks[i]);
        lemma_lookup_opt_str("metaType"@, q.meta_type, ks[i]);
        lemma_lookup_opt_str("metaId"@, q.meta_id, ks[i]);
    }
    assert(ks[0] == "bundleHash"@ && ks[1] == "metaType"@ && ks[2] == "metaId"@);
}

impl QueryActiveSession {
    /// A query with no parameter set.
    pub fn new() -> (q: Self)
        ensures
            q.bundle_hash is None,
            q.meta_type is None,
            q.meta_id is None,
    {
        QueryActiveSession { bundle_hash: None, meta_type: None, meta_id: None }
    }

    /// Set the bundle hash parameter.
    pub fn with_bundle_hash(self, bundle_hash: &str) -> (q: Self)
        ensures
            opt_view(q.bundle_hash) == Some(bundle_hash@),
            q.meta_type == self.meta_type,
            q.meta_id == self.meta_id,
    {
        QueryActiveSession { bundle_hash: Some(bundle_hash.to_owned()), meta_type: self.meta_type, meta_id: self.meta_id }
    }

    /// Set the meta type parameter.
    pub fn with_meta_type(self, meta_type: &str) -> (q: Self)
        ensures
            q.bundle_hash == self.bundle_hash,
            opt_view(q.meta_type) == Some(meta_type@),
            q.meta_id == self.meta_id,
    {
        QueryActiveSession { bundle_hash: self.bundle_hash, meta_type: Some(meta_type.to_owned()), meta_id: self.meta_id }
    }

    /// Set the meta ID parameter.
    pub fn with_meta_id(self, meta_id: &str) -> (q: Self)
        ensures
            q.bundle_hash == self.bundle_hash,
            q.meta_type == self.meta_type,
            opt_view(q.meta_id) == Some(meta_id@),
    {
        QueryActiveSession { bundle_hash: self.bundle_hash, meta_type: self.meta_type, meta_id: Some(meta_id.to_owned()) }
    }

    /// Set the meta type and the meta ID together.
    pub fn with_meta(self, meta_type: &str, meta_id: &str) -> (q: Self)
        ensures
            q.bundle_hash == self.bundle_hash,
            opt_view(q.meta_type) == Some(meta_type@),
            opt_view(q.meta_id) == Some(meta_id@),
    {
        QueryActiveSession { bundle_hash: self.bundle_hash, meta_type: Some(meta_type.to_owned()), meta_id: Some(meta_id.to_owned()) }
    }

    /// The bundle hash parameter, if set.
    pub fn bundle_hash(&self) -> (r: Option<&str>)
        ensures
            opt_ref_view(r) == opt_view(self.bundle_hash),
    {
        opt_as_str(&self.bundle_hash)
    }

    /// The meta type parameter, if set.
    pub fn meta_type(&self) -> (r: Option<&str>)
        ensures
            opt_ref_view(r) == opt_view(self.meta_type),
    {
        opt_as_str(&self.meta_type)
    }

    /// The meta id parameter, if set.
    pub fn meta_id(&self) -> (r: Option<&str>)
        ensures
            opt_ref_view(r) == opt_view(self.meta_id),
    {
        opt_as_str(&self.meta_id)
    }

    /// The query text.
    pub fn get_query(&self) -> (s: &'static str)
        ensures
            s@ == ACTIVE_SESSION_QUERY@,
    {
        ACTIVE_SESSION_QUERY
    }

    /// The variables to send: those provided, else one entry per parameter set.
    pub fn compiled_variables(&self, variables: Option<JsonValue>) -> (res: Option<JsonValue>)
        ensures
            variables is Some ==> res == variables,
            variables is None ==> (res matches Some(v) && v@ == Json::Object(active_session_variables(*self))),
    {
        match variables {
            Some(v) => Some(v),
            None => {
                let mut entries: Vec<(String, JsonValue)> = Vec::new();
                assert(entries_view(entries@) == Seq::<(Seq<char>, Json)>::empty());
                push_opt_str(&mut entries, "bundleHash", &self.bundle_hash);
                push_opt_str(&mut entries, "metaType", &self.meta_type);
                push_opt_str(&mut entries, "metaId", &self.meta_id);
                assert(active_session_variables(*self) =~= Seq::<(Seq<char>, Json)>::empty() + opt_str_entry("bundleHash"@, self.bundle_hash) + opt_str_entry("metaType"@, self.meta_type) + opt_str_entry("metaId"@, self.meta_id));
                Some(object(entries))
            },
        }
    }

    /// Active sessions of a bundle.
    pub fn by_bundle_hash(bundle_hash: &str) -> (q: Self)
        ensures
            opt_view(q.bundle_hash) == Some(bundle_hash@),
            q.meta_type is None,
            q.meta_id is None,
    {
        Self::new().with_bundle_hash(bundle_hash)
    }

    /// Active sessions of a meta type.
    pub fn by_meta_type(meta_type: &str) -> (q: Self)
        ensures
            q.bundle_hash is None,
            opt_view(q.meta_type) == Some(meta_type@),
            q.meta_id is None,
    {
        Self::new().with_meta_type(meta_type)
    }

    /// Active sessions of a meta ID.
    pub fn by_meta_id(meta_id: &str) -> (q: Self)
        ensures
            q.bundle_hash is None,
            q.meta_type is None,
            opt_view(q.meta_id) == Some(meta_id@),
    {
        Self::new().with_meta_id(meta_id)
    }

    /// Active sessions of a meta type and ID.
    pub fn by_meta(meta_type: &str, meta_id: &str) -> (q: Self)
        ensures
            q.bundle_hash is None,
            opt_view(q.meta_type) == Some(meta_type@),
            opt_view(q.meta_id) == Some(meta_id@),
    {
        Self::new().with_meta(meta_type, meta_id)
    }

    /// All active sessions (no filter).
    pub fn all() -> (q: Self)
        ensures
            q.bundle_hash is None,
            q.meta_type is None,
            q.meta_id is None,
    {
        Self::new()
    }


}

} // verus!
