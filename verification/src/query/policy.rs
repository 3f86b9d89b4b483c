//! Access policies of metadata.

use vstd::prelude::*;
use crate::json::{
    Json, JsonValue, entries_view, lemma_lookup_concat, lemma_lookup_opt_str, lookup, object, opt_json_text,
    opt_str_entry, push_opt_str,
};
use crate::text::{opt_view, opt_ref_view, opt_as_str};

verus! {

/// The GraphQL text of this query.
pub const POLICY_QUERY: &'static str = r#"query( $metaType: String, $metaId: String ) {
          Policy( metaType: $metaType, metaId: $metaId ) {
            molecularHash,
            position,
            metaType,
            metaId,
            conditions,
            callback,
            rule,
            createdAt
          }
        }"#;

/// Query for policy information.
#[derive(Debug)]
pub struct QueryPolicy {
    /// Meta type to filter by
    pub meta_type: Option<String>,
    /// Meta ID to filter by
    pub meta_id: Option<String>,
}

/// The variables this query sends when none are provided: one entry per
/// parameter that is set.
pub open spec fn policy_variables(q: QueryPolicy) -> Seq<(Seq<char>, Json)> {
    opt_str_entry("metaType"@, q.meta_type)
        + opt_str_entry("metaId"@, q.meta_id)
}

/// The variables of a policy query give the meta type under `metaType` and
/// the meta ID under `metaId`, each exactly when it is set.
pub proof fn law_policy_variables(q: QueryPolicy)
    ensures
        lookup(policy_variables(q), "metaType"@) == opt_json_text(q.meta_type),
        lookup(policy_variables(q), "metaId"@) == opt_json_text(q.meta_id),
{
    reveal_strlit("metaType");
    reveal_strlit("metaId");
    assert("metaType"@.len() == 8 && "metaId"@.len() == 6);
    let e1 = opt_str_entry("metaType"@, q.meta_type);
    let e2 = opt_str_entry("metaId"@, q.meta_id);
    lemma_lookup_concat(e1, e2, "metaType"@);
    lemma_lookup_concat(e1, e2, "metaId"@);
    lemma_lookup_opt_str("metaType"@, q.meta_type, "metaType"@);
    lemma_lookup_opt_str("metaId"@, q.meta_id, "metaType"@);
    lemma_lookup_opt_str("metaType"@, q.meta_type, "metaId"@);
    lemma_lookup_opt_str("metaId"@, q.meta_id, "metaId"@);
}

impl QueryPolicy {
    /// A query with no parameter set.
    pub fn new() -> (q: Self)
        ensures
            q.meta_type is None,
            q.meta_id is None,
    {
        QueryPolicy { meta_type: None, meta_id: None }
    }

    /// Set the meta type parameter.
    pub fn with_meta_type(self, meta_type: &str) -> (q: Self)
        ensures
            opt_view(q.meta_type) == Some(meta_type@),
            q.meta_id == self.meta_id,
    {
        QueryPolicy { meta_type: Some(meta_type.to_owned()), meta_id: self.meta_id }
    }

    /// Set the meta ID parameter.
    pub fn with_meta_id(self, meta_id: &str) -> (q: Self)
        ensures
            q.meta_type == self.meta_type,
            opt_view(q.meta_id) == Some(meta_id@),
    {
        QueryPolicy { meta_type: self.meta_type, meta_id: Some(meta_id.to_owned()) }
    }

    /// Set the meta type and the meta ID together.
    pub fn with_meta(self, meta_type: &str, meta_id: &str) -> (q: Self)
        ensures
            opt_view(q.meta_type) == Some(meta_type@),
            opt_view(q.meta_id) == Some(meta_id@),
    {
        QueryPolicy { meta_type: Some(meta_type.to_owned()), meta_id: Some(meta_id.to_owned()) }
    }

    /// The meta type parameter, if set.
    pub fn meta_type(&self) -> (r: Option<&str>)
        ensures
            opt_ref_view(r) == opt_view(self.meta_type),
    {
        opt_as_str(&self.meta_type)
    }

    /// The meta id parameter, if set.
    pub fn meta_id(&self) -> (r: Option<&str>)
        ensures
            opt_ref_view(r) == opt_view(self.meta_id),
    {
        opt_as_str(&self.meta_id)
    }

    /// The query text.
    pub fn get_query(&self) -> (s: &'static str)
        ensures
            s@ == POLICY_QUERY@,
    {
        POLICY_QUERY
    }

    /// The variables to send: those provided, else one entry per parameter set.
    pub fn compiled_variables(&self, variables: Option<JsonValue>) -> (res: Option<JsonValue>)
        ensures
            variables is Some ==> res == variables,
            variables is None ==> (res matches Some(v) && v@ == Json::Object(policy_variables(*self))),
    {
        match variables {
            Some(v) => Some(v),
            None => {
                let mut entries: Vec<(String, JsonValue)> = Vec::new();
                assert(entries_view(entries@) == Seq::<(Seq<char>, Json)>::empty());
                push_opt_str(&mut entries, "metaType", &self.meta_type);
                push_opt_str(&mut entries, "metaId", &self.meta_id);
                assert(policy_variables(*self) =~= Seq::<(Seq<char>, Json)>::empty() + opt_str_entry("metaType"@, self.meta_type) + opt_str_entry("metaId"@, self.meta_id));
                Some(object(entries))
            },
        }
    }

    /// Policies of a meta type.
    pub fn by_meta_type(meta_type: &str) -> (q: Self)
        ensures
            opt_view(q.meta_type) == Some(meta_type@),
            q.meta_id is None,
    {
        Self::new().with_meta_type(meta_type)
    }

    /// Policies of a meta ID.
    pub fn by_meta_id(meta_id: &str) -> (q: Self)
        ensures
            q.meta_type is None,
            opt_view(q.meta_id) == Some(meta_id@),
    {
        Self::new().with_meta_id(meta_id)
    }

    /// Policies of a meta type and ID.
    pub fn by_meta(meta_type: &str, meta_id: &str) -> (q: Self)
        ensures
            opt_view(q.meta_type) == Some(meta_type@),
            opt_view(q.meta_id) == Some(meta_id@),
    {
        Self::new().with_meta(meta_type, meta_id)
    }

    /// All policies (no filter).
    pub fn all() -> (q: Self)
        ensures
            q.meta_type is None,
            q.meta_id is None,
    {
        Self::new()
    }


}

} // verus!
