//! The mutation that declares an active user session with a meta asset.

use vstd::prelude::*;
use crate::json::JsonValue;

verus! {

/// The GraphQL text of the active-session mutation.
pub const ACTIVE_SESSION_MUTATION: &'static str = r#"mutation(
          $bundleHash: String!,
          $metaType: String!,
          $metaId: String!,
          $ipAddress: String,
          $browser: String,
          $osCpu: String,
          $resolution: String,
          $timeZone: String,
          $json: String
        ) {
          ActiveSession(
            bundleHash: $bundleHash,
            metaType: $metaType,
            metaId: $metaId,
            ipAddress: $ipAddress,
            browser: $browser,
            osCpu: $osCpu,
            resolution: $resolution,
            timeZone: $timeZone,
            json: $json
          ) {
            bundleHash,
            metaType,
            metaId,
            jsonData,
            createdAt,
            updatedAt
          }
        }"#;

/// Declares an active user session.
#[derive(Debug)]
pub struct MutationActiveSession {}

impl MutationActiveSession {
    /// The mutation.
    pub fn new() -> (m: Self) {
        MutationActiveSession {}
    }

    /// The GraphQL text of the mutation.
    pub fn get_query(&self) -> (s: &'static str)
        ensures
            s@ == ACTIVE_SESSION_MUTATION@,
    {
        ACTIVE_SESSION_MUTATION
    }

    /// The GraphQL text of the mutation.
    pub fn get_mutation(&self) -> (s: &'static str)
        ensures
            s@ == ACTIVE_SESSION_MUTATION@,
    {
        self.get_query()
    }

    /// The variables sent with the mutation: those given, unchanged.
    pub fn compiled_variables(&self, variables: Option<JsonValue>) -> (r: Option<JsonValue>)
        ensures
            r == variables,
    {
        variables
    }
}

impl Default for MutationActiveSession {
    fn default() -> (m: Self) {
        Self::new()
    }
}

} // verus!
