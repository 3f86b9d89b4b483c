//! Batches of stackable tokens.

use vstd::prelude::*;
use crate::json::{Json, JsonValue, entries_view, object, opt_str_entry, push_opt_str};
use crate::text::{opt_view, opt_ref_view, opt_as_str};

verus! {

/// The GraphQL text of this query.
pub const BATCH_QUERY: &'static str = r#"query( $batchId: String ) {
          Batch( batchId: $batchId ) {
            batchId,
            molecularHash,
            type,
            status,
            createdAt,
            wallet {
                address,
                bundleHash,
                amount,
                tokenSlug,
                token {
                    name,
                    amount
                },
                tokenUnits {
                    id,
                    name,
                    metas
                }
            },
            fromWallet {
                address,
                bundleHash,
                amount,
                batchId
            },
            toWallet {
                address,
                bundleHash,
                amount,
                batchId
            },
            sourceTokenUnits {
                id,
                name,
                metas
            },
            transferTokenUnits {
                id,
                name,
                metas
            },
            metas {
                key,
                value
            },
            throughMetas {
                key,
                value
            },
            children {
              batchId,
              molecularHash,
              type,
              status,
              createdAt,
              wallet {
                  address,
                  bundleHash,
                  amount,
                  tokenSlug,
                  token {
                      name,
                      amount
                  },
                  tokenUnits {
                      id,
                      name,
                      metas
                  }
              },
              fromWallet {
                  address,
                  bundleHash,
                  amount,
                  batchId
              },
              toWallet {
                  address,
                  bundleHash,
                  amount,
                  batchId
              },
              sourceTokenUnits {
                  id,
                  name,
                  metas
              },
              transferTokenUnits {
                  id,
                  name,
                  metas
              },
              metas {
                  key,
                  value
              },
              throughMetas {
                  key,
                  value
              }
            }
          }
        }"#;

/// The fields that the batch query selects for a batch.
pub const BATCH_FIELDS: &'static str = r#"
            batchId,
            molecularHash,
            type,
            status,
            createdAt,
            wallet {
                address,
                bundleHash,
                amount,
                tokenSlug,
                token {
                    name,
                    amount
                },
                tokenUnits {
                    id,
                    name,
                    metas
                }
            },
            fromWallet {
                address,
                bundleHash,
                amount,
                batchId
            },
            toWallet {
                address,
                bundleHash,
                amount,
                batchId
            },
            sourceTokenUnits {
                id,
                name,
                metas
            },
            transferTokenUnits {
                id,
                name,
                metas
            },
            metas {
                key,
                value
            },
            throughMetas {
                key,
                value
            }
"#;

/// Query for batch information.
#[derive(Debug)]
pub struct QueryBatch {
    /// Batch ID to query
    pub batch_id: Option<String>,
}

/// The variables this query sends when none are provided: one entry per
/// parameter that is set.
pub open spec fn batch_variables(q: QueryBatch) -> Seq<(Seq<char>, Json)> {
    opt_str_entry("batchId"@, q.batch_id)
}

impl QueryBatch {
    /// A query with no parameter set.
    pub fn new() -> (q: Self)
        ensures
            q.batch_id is None,
    {
        QueryBatch { batch_id: None }
    }

    /// Set the batch ID parameter.
    pub fn set_batch_id(&mut self, batch_id: &str)
        ensures
            opt_view(final(self).batch_id) == Some(batch_id@),
    {
        self.batch_id = Some(batch_id.to_owned());
    }

    /// The batch id parameter, if set.
    pub fn batch_id(&self) -> (r: Option<&str>)
        ensures
            opt_ref_view(r) == opt_view(self.batch_id),
    {
        opt_as_str(&self.batch_id)
    }

    /// The query text.
    pub fn get_query(&self) -> (s: &'static str)
        ensures
            s@ == BATCH_QUERY@,
    {
        BATCH_QUERY
    }

    /// The variables to send: those provided, else one entry per parameter set.
    pub fn compiled_variables(&self, variables: Option<JsonValue>) -> (res: Option<JsonValue>)
        ensures
            variables is Some ==> res == variables,
            variables is None ==> (res matches Some(v) && v@ == Json::Object(batch_variables(*self))),
    {
        match variables {
            Some(v) => Some(v),
            None => {
                let mut entries: Vec<(String, JsonValue)> = Vec::new();
                assert(entries_view(entries@) == Seq::<(Seq<char>, Json)>::empty());
                push_opt_str(&mut entries, "batchId", &self.batch_id);
                assert(batch_variables(*self) =~= Seq::<(Seq<char>, Json)>::empty() + opt_str_entry("batchId"@, self.batch_id));
                Some(object(entries))
            },
        }
    }

    /// A query for one batch ID.
    pub fn with_batch_id(batch_id: &str) -> (q: Self)
        ensures
            opt_view(q.batch_id) == Some(batch_id@),
    {
        QueryBatch { batch_id: Some(batch_id.to_owned()) }
    }

    /// A query for one batch ID.
    pub fn by_id(batch_id: &str) -> (q: Self)
        ensures
            opt_view(q.batch_id) == Some(batch_id@),
    {
        Self::with_batch_id(batch_id)
    }

    /// A query with no batch ID.
    pub fn all() -> (q: Self)
        ensures
            q.batch_id is None,
    {
        Self::new()
    }

    /// The fields that the query selects for a batch.
    pub fn get_fields() -> (s: &'static str)
        ensures
            s@ == BATCH_FIELDS@,
    {
        BATCH_FIELDS
    }

}

} // verus!
